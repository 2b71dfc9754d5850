//! The `invoice` grammar.
use vstd::prelude::*;
use vstd::string::*;
use crate::env::Environment;
use crate::error::{Error, ErrorView};
use crate::grammar::{expect_end, field, finish, take_field};
use crate::text::{keyword_is, kw_match, CaseRule};
use crate::words::{next_token, Words};

verus! {

/// What to fetch of one invoice.
#[derive(Clone, Copy, Debug, PartialEq, Eq)]
pub enum InvoiceAction {
    /// Its details.
    Item,
    /// Its PDF document.
    Pdf,
}

/// The keyword of an invoice action.
pub open spec fn invoice_action_text(a: InvoiceAction) -> Seq<char> {
    match a {
        InvoiceAction::Item => "item"@,
        InvoiceAction::Pdf => "pdf"@,
    }
}

/// The invoice action that token `t` names under `case`.
pub open spec fn invoice_action_of(t: Seq<char>, case: CaseRule) -> Option<InvoiceAction> {
    if kw_match(t, "item"@, case) {
        Some(InvoiceAction::Item)
    } else if kw_match(t, "pdf"@, case) {
        Some(InvoiceAction::Pdf)
    } else {
        None
    }
}

impl InvoiceAction {
    /// The keyword of this action.
    pub fn as_str(&self) -> (r: &'static str)
        ensures
            r@ == invoice_action_text(*self),
    {
        match self {
            InvoiceAction::Item => "item",
            InvoiceAction::Pdf => "pdf",
        }
    }

    /// The action that token `t` names under `case`.
    pub fn from_keyword(t: &str, case: CaseRule) -> (r: Option<InvoiceAction>)
        ensures
            r == invoice_action_of(t@, case),
    {
        if keyword_is(t, "item", case) {
            Some(InvoiceAction::Item)
        } else if keyword_is(t, "pdf", case) {
            Some(InvoiceAction::Pdf)
        } else {
            None
        }
    }
}

/// Queries on invoices.
#[derive(Debug, Clone, PartialEq, Eq)]
pub enum InvoiceCommand {
    /// All invoices.
    List,
    /// One invoice, by number, and what to fetch of it.
    Action(String, InvoiceAction),
}

/// Mathematical value of an [`InvoiceCommand`].
pub enum InvoiceCommandView {
    List,
    Action(Seq<char>, InvoiceAction),
}

impl View for InvoiceCommand {
    type V = InvoiceCommandView;

    open spec fn view(&self) -> InvoiceCommandView {
        match self {
            InvoiceCommand::List => InvoiceCommandView::List,
            InvoiceCommand::Action(n, a) => InvoiceCommandView::Action(n@, *a),
        }
    }
}

/// What the `invoice` grammar makes of the text `s` after the keyword.
pub open spec fn parse_invoice(s: Seq<char>, env: Seq<(Seq<char>, Seq<char>)>, case: CaseRule) -> Result<
    InvoiceCommandView,
    ErrorView,
> {
    match next_token(s) {
        None => Err(ErrorView::MissingSubCommand),
        Some(v) => if kw_match(v.0, "list"@, case) {
            finish(v.1, InvoiceCommandView::List)
        } else {
            match invoice_action_of(v.0, case) {
                None => Err(ErrorView::WrongSubCommand(v.0)),
                Some(a) => match field(v.1, env, "invoice number"@) {
                    Err(e) => Err(e),
                    Ok(n) => finish(n.1, InvoiceCommandView::Action(n.0, a)),
                },
            }
        },
    }
}

/// The canonical text of an `invoice` sub-command.
pub open spec fn render_invoice(c: InvoiceCommandView) -> Seq<char> {
    match c {
        InvoiceCommandView::List => "list"@,
        InvoiceCommandView::Action(n, a) => invoice_action_text(a) + (" "@ + n),
    }
}

impl InvoiceCommand {
    /// Parses the words after the `invoice` keyword.
    pub fn from_words(words: Words, env: &Environment, case: CaseRule) -> (r: Result<
        InvoiceCommand,
        Error,
    >)
        ensures
            crate::error::result_view(r) == parse_invoice(words@, env@, case),
    {
        let mut words = words;
        let verb = match words.next() {
            None => return Err(Error::MissingSubCommand),
            Some(v) => v,
        };
        if keyword_is(verb.as_str(), "list", case) {
            expect_end(&mut words)?;
            return Ok(InvoiceCommand::List);
        }
        match InvoiceAction::from_keyword(verb.as_str(), case) {
            None => Err(Error::WrongSubCommand(verb)),
            Some(a) => {
                let number = take_field(&mut words, env, "invoice number")?;
                expect_end(&mut words)?;
                Ok(InvoiceCommand::Action(number, a))
            },
        }
    }

    /// The canonical text of this sub-command.
    pub fn to_string(&self) -> (r: String)
        ensures
            r@ == render_invoice(self@),
    {
        match self {
            InvoiceCommand::List => "list".to_owned(),
            InvoiceCommand::Action(n, a) => {
                let mut r = a.as_str().to_owned();
                r.append(" ");
                r.append(n.as_str());
                assert(r@ =~= render_invoice(self@));
                r
            },
        }
    }
}

} // verus!
