//! The `product` grammar.
use vstd::prelude::*;
use vstd::string::*;
use crate::env::Environment;
use crate::error::{Error, ErrorView};
use crate::grammar::{expect_end, field, finish, take_field};
use crate::text::{keyword_is, kw_match, CaseRule};
use crate::words::{next_token, Words};

verus! {

/// Queries on the provider's product catalogue.
#[derive(Debug, Clone, PartialEq, Eq)]
pub enum ProductCommand {
    /// All products.
    List,
    /// The elements of one product, by name.
    Elements(String),
}

/// Mathematical value of a [`ProductCommand`].
pub enum ProductCommandView {
    List,
    Elements(Seq<char>),
}

impl View for ProductCommand {
    type V = ProductCommandView;

    open spec fn view(&self) -> ProductCommandView {
        match self {
            ProductCommand::List => ProductCommandView::List,
            ProductCommand::Elements(p) => ProductCommandView::Elements(p@),
        }
    }
}

/// What the `product` grammar makes of the text `s` after the keyword.
pub open spec fn parse_product(s: Seq<char>, env: Seq<(Seq<char>, Seq<char>)>, case: CaseRule) -> Result<
    ProductCommandView,
    ErrorView,
> {
    match next_token(s) {
        None => Err(ErrorView::MissingSubCommand),
        Some(v) => if kw_match(v.0, "list"@, case) {
            finish(v.1, ProductCommandView::List)
        } else if kw_match(v.0, "elements"@, case) {
            match field(v.1, env, "product name"@) {
                Err(e) => Err(e),
                Ok(p) => finish(p.1, ProductCommandView::Elements(p.0)),
            }
        } else {
            Err(ErrorView::WrongSubCommand(v.0))
        },
    }
}

/// The canonical text of a `product` sub-command.
pub open spec fn render_product(c: ProductCommandView) -> Seq<char> {
    match c {
        ProductCommandView::List => "list"@,
        ProductCommandView::Elements(p) => "elements"@ + (" "@ + p),
    }
}

impl ProductCommand {
    /// Parses the words after the `product` keyword.
    pub fn from_words(words: Words, env: &Environment, case: CaseRule) -> (r: Result<
        ProductCommand,
        Error,
    >)
        ensures
            crate::error::result_view(r) == parse_product(words@, env@, case),
    {
        let mut words = words;
        let verb = match words.next() {
            None => return Err(Error::MissingSubCommand),
            Some(v) => v,
        };
        if keyword_is(verb.as_str(), "list", case) {
            expect_end(&mut words)?;
            Ok(ProductCommand::List)
        } else if keyword_is(verb.as_str(), "elements", case) {
            let name = take_field(&mut words, env, "product name")?;
            expect_end(&mut words)?;
            Ok(ProductCommand::Elements(name))
        } else {
            Err(Error::WrongSubCommand(verb))
        }
    }

    /// The canonical text of this sub-command.
    pub fn to_string(&self) -> (r: String)
        ensures
            r@ == render_product(self@),
    {
        match self {
            ProductCommand::List => "list".to_owned(),
            ProductCommand::Elements(p) => {
                let mut r = "elements".to_owned();
                r.append(" ");
                r.append(p.as_str());
                assert(r@ =~= render_product(self@));
                r
            },
        }
    }
}

} // verus!
