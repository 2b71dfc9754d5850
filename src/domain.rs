//! The `domain` grammar.
use vstd::prelude::*;
use vstd::string::*;
use crate::env::Environment;
use crate::error::{Error, ErrorView};
use crate::grammar::{expect_end, field, finish, take_field};
use crate::text::{keyword_is, kw_match, CaseRule};
use crate::words::{next_token, Words};

verus! {

/// Operations on registered domains.
#[derive(Debug, Clone, PartialEq, Eq)]
pub enum DomainCommand {
    /// All domains.
    List,
    /// One domain, by name.
    Item(String),
}

/// Mathematical value of a [`DomainCommand`].
pub enum DomainCommandView {
    List,
    Item(Seq<char>),
}

impl View for DomainCommand {
    type V = DomainCommandView;

    open spec fn view(&self) -> DomainCommandView {
        match self {
            DomainCommand::List => DomainCommandView::List,
            DomainCommand::Item(d) => DomainCommandView::Item(d@),
        }
    }
}

/// What the `domain` grammar makes of the text `s` after the keyword.
pub open spec fn parse_domain(s: Seq<char>, env: Seq<(Seq<char>, Seq<char>)>, case: CaseRule) -> Result<
    DomainCommandView,
    ErrorView,
> {
    match next_token(s) {
        None => Err(ErrorView::MissingSubCommand),
        Some(v) => if kw_match(v.0, "list"@, case) {
            finish(v.1, DomainCommandView::List)
        } else if kw_match(v.0, "item"@, case) {
            match field(v.1, env, "domain name"@) {
                Err(e) => Err(e),
                Ok(d) => finish(d.1, DomainCommandView::Item(d.0)),
            }
        } else {
            Err(ErrorView::WrongSubCommand(v.0))
        },
    }
}

/// The canonical text of a `domain` sub-command.
pub open spec fn render_domain(c: DomainCommandView) -> Seq<char> {
    match c {
        DomainCommandView::List => "list"@,
        DomainCommandView::Item(d) => "item"@ + (" "@ + d),
    }
}

impl DomainCommand {
    /// Parses the words after the `domain` keyword.
    pub fn from_words(words: Words, env: &Environment, case: CaseRule) -> (r: Result<
        DomainCommand,
        Error,
    >)
        ensures
            crate::error::result_view(r) == parse_domain(words@, env@, case),
    {
        let mut words = words;
        let verb = match words.next() {
            None => return Err(Error::MissingSubCommand),
            Some(v) => v,
        };
        if keyword_is(verb.as_str(), "list", case) {
            expect_end(&mut words)?;
            Ok(DomainCommand::List)
        } else if keyword_is(verb.as_str(), "item", case) {
            let name = take_field(&mut words, env, "domain name")?;
            expect_end(&mut words)?;
            Ok(DomainCommand::Item(name))
        } else {
            Err(Error::WrongSubCommand(verb))
        }
    }

    /// The canonical text of this sub-command.
    pub fn to_string(&self) -> (r: String)
        ensures
            r@ == render_domain(self@),
    {
        match self {
            DomainCommand::List => "list".to_owned(),
            DomainCommand::Item(d) => {
                let mut r = "item".to_owned();
                r.append(" ");
                r.append(d.as_str());
                assert(r@ =~= render_domain(self@));
                r
            },
        }
    }
}

} // verus!
