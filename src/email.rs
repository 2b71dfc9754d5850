//! The grammar shared by `email-box` and `email-forward`.
use vstd::prelude::*;
use vstd::string::*;
use crate::env::Environment;
use crate::error::{Error, ErrorView};
use crate::grammar::{expect_end, field, finish, take_field};
use crate::text::{keyword_is, kw_match, CaseRule};
use crate::words::{next_token, Words};

verus! {

/// Operations on the mailboxes or mail forwards of a domain; records are
/// identified by a string.
#[derive(Debug, Clone, PartialEq, Eq)]
pub enum EmailCommand {
    /// Removes a record: domain and id.
    Delete(String, String),
    /// Adds a record: domain and value.
    Insert(String, String),
    /// Shows a record: domain and id.
    Item(String, String),
    /// All records of a domain.
    List(String),
    /// Changes a record: domain, id and new value.
    Update(String, String, String),
}

/// Mathematical value of an [`EmailCommand`].
pub enum EmailCommandView {
    Delete(Seq<char>, Seq<char>),
    Insert(Seq<char>, Seq<char>),
    Item(Seq<char>, Seq<char>),
    List(Seq<char>),
    Update(Seq<char>, Seq<char>, Seq<char>),
}

impl View for EmailCommand {
    type V = EmailCommandView;

    open spec fn view(&self) -> EmailCommandView {
        match self {
            EmailCommand::Delete(d, i) => EmailCommandView::Delete(d@, i@),
            EmailCommand::Insert(d, v) => EmailCommandView::Insert(d@, v@),
            EmailCommand::Item(d, i) => EmailCommandView::Item(d@, i@),
            EmailCommand::List(d) => EmailCommandView::List(d@),
            EmailCommand::Update(d, i, v) => EmailCommandView::Update(d@, i@, v@),
        }
    }
}

/// The verb is one of `item`, `delete`, `insert` and `update`: read one
/// further field (and a second one for `update`).
pub open spec fn parse_email_record(
    verb: Seq<char>,
    d: Seq<char>,
    s: Seq<char>,
    env: Seq<(Seq<char>, Seq<char>)>,
    case: CaseRule,
) -> Result<EmailCommandView, ErrorView> {
    if kw_match(verb, "insert"@, case) {
        match field(s, env, "value"@) {
            Err(e) => Err(e),
            Ok(v) => finish(v.1, EmailCommandView::Insert(d, v.0)),
        }
    } else {
        match field(s, env, "id"@) {
            Err(e) => Err(e),
            Ok(i) => if kw_match(verb, "item"@, case) {
                finish(i.1, EmailCommandView::Item(d, i.0))
            } else if kw_match(verb, "delete"@, case) {
                finish(i.1, EmailCommandView::Delete(d, i.0))
            } else {
                match field(i.1, env, "value"@) {
                    Err(e) => Err(e),
                    Ok(v) => finish(v.1, EmailCommandView::Update(d, i.0, v.0)),
                }
            },
        }
    }
}

/// Whether `t` is a verb of the e-mail grammar other than `list`.
pub open spec fn is_record_verb(t: Seq<char>, case: CaseRule) -> bool {
    kw_match(t, "item"@, case) || kw_match(t, "delete"@, case) || kw_match(t, "insert"@, case)
        || kw_match(t, "update"@, case)
}

/// What the e-mail grammar makes of the text `s` after the keyword.
pub open spec fn parse_email(s: Seq<char>, env: Seq<(Seq<char>, Seq<char>)>, case: CaseRule) -> Result<
    EmailCommandView,
    ErrorView,
> {
    match next_token(s) {
        None => Err(ErrorView::MissingSubCommand),
        Some(v) => if !kw_match(v.0, "list"@, case) && !is_record_verb(v.0, case) {
            Err(ErrorView::WrongSubCommand(v.0))
        } else {
            match field(v.1, env, "domain name"@) {
                Err(e) => Err(e),
                Ok(d) => if kw_match(v.0, "list"@, case) {
                    finish(d.1, EmailCommandView::List(d.0))
                } else {
                    parse_email_record(v.0, d.0, d.1, env, case)
                },
            }
        },
    }
}

/// The canonical text of an e-mail sub-command.
pub open spec fn render_email(c: EmailCommandView) -> Seq<char> {
    match c {
        EmailCommandView::Delete(d, i) => "delete"@ + (" "@ + (d + (" "@ + i))),
        EmailCommandView::Insert(d, v) => "insert"@ + (" "@ + (d + (" "@ + v))),
        EmailCommandView::Item(d, i) => "item"@ + (" "@ + (d + (" "@ + i))),
        EmailCommandView::List(d) => "list"@ + (" "@ + d),
        EmailCommandView::Update(d, i, v) => "update"@ + (" "@ + (d + (" "@ + (i + (" "@ + v))))),
    }
}

impl EmailCommand {
    /// Parses the words after the `email-box` or `email-forward` keyword.
    pub fn from_words(words: Words, env: &Environment, case: CaseRule) -> (r: Result<
        EmailCommand,
        Error,
    >)
        ensures
            crate::error::result_view(r) == parse_email(words@, env@, case),
    {
        let mut words = words;
        let verb = match words.next() {
            None => return Err(Error::MissingSubCommand),
            Some(v) => v,
        };
        let v = verb.as_str();
        let list = keyword_is(v, "list", case);
        let item = keyword_is(v, "item", case);
        let delete = keyword_is(v, "delete", case);
        let insert = keyword_is(v, "insert", case);
        let update = keyword_is(v, "update", case);
        if !list && !item && !delete && !insert && !update {
            return Err(Error::WrongSubCommand(verb));
        }
        let domain = take_field(&mut words, env, "domain name")?;
        if list {
            expect_end(&mut words)?;
            return Ok(EmailCommand::List(domain));
        }
        if insert {
            let value = take_field(&mut words, env, "value")?;
            expect_end(&mut words)?;
            return Ok(EmailCommand::Insert(domain, value));
        }
        let id = take_field(&mut words, env, "id")?;
        if item {
            expect_end(&mut words)?;
            Ok(EmailCommand::Item(domain, id))
        } else if delete {
            expect_end(&mut words)?;
            Ok(EmailCommand::Delete(domain, id))
        } else {
            let value = take_field(&mut words, env, "value")?;
            expect_end(&mut words)?;
            Ok(EmailCommand::Update(domain, id, value))
        }
    }

    /// The canonical text of this sub-command.
    pub fn to_string(&self) -> (r: String)
        ensures
            r@ == render_email(self@),
    {
        match self {
            EmailCommand::Delete(d, i) => {
                let mut r = "delete".to_owned();
                r.append(" ");
                r.append(d.as_str());
                r.append(" ");
                r.append(i.as_str());
                assert(r@ =~= render_email(self@));
                r
            },
            EmailCommand::Insert(d, v) => {
                let mut r = "insert".to_owned();
                r.append(" ");
                r.append(d.as_str());
                r.append(" ");
                r.append(v.as_str());
                assert(r@ =~= render_email(self@));
                r
            },
            EmailCommand::Item(d, i) => {
                let mut r = "item".to_owned();
                r.append(" ");
                r.append(d.as_str());
                r.append(" ");
                r.append(i.as_str());
                assert(r@ =~= render_email(self@));
                r
            },
            EmailCommand::List(d) => {
                let mut r = "list".to_owned();
                r.append(" ");
                r.append(d.as_str());
                assert(r@ =~= render_email(self@));
                r
            },
            EmailCommand::Update(d, i, v) => {
                let mut r = "update".to_owned();
                r.append(" ");
                r.append(d.as_str());
                r.append(" ");
                r.append(i.as_str());
                r.append(" ");
                r.append(v.as_str());
                assert(r@ =~= render_email(self@));
                r
            },
        }
    }
}

} // verus!
