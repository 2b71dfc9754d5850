//! The `dns` grammar.
use vstd::prelude::*;
use vstd::string::*;
use crate::env::{resolve, resolve_token, Environment};
use crate::error::{Error, ErrorView};
use crate::grammar::{expect_end, field, finish, take_field};
use crate::number::{decimal, parse_number, parse_u64, render_number};
use crate::text::{keyword_is, kw_match, CaseRule};
use crate::words::{next_token, rest_of, Words};

verus! {

/// The type of a DNS record.
#[allow(clippy::upper_case_acronyms)]
#[derive(Clone, Copy, Debug, PartialEq, Eq)]
pub enum RecordType {
    A,
    AAAA,
    CNAME,
    MX,
    NS,
    TXT,
    SRV,
}

/// The keyword of a record type.
pub open spec fn record_type_text(t: RecordType) -> Seq<char> {
    match t {
        RecordType::A => "A"@,
        RecordType::AAAA => "AAAA"@,
        RecordType::CNAME => "CNAME"@,
        RecordType::MX => "MX"@,
        RecordType::NS => "NS"@,
        RecordType::TXT => "TXT"@,
        RecordType::SRV => "SRV"@,
    }
}

/// The record type that token `t` names under `case`.
pub open spec fn record_type_of(t: Seq<char>, case: CaseRule) -> Option<RecordType> {
    if kw_match(t, "A"@, case) {
        Some(RecordType::A)
    } else if kw_match(t, "AAAA"@, case) {
        Some(RecordType::AAAA)
    } else if kw_match(t, "CNAME"@, case) {
        Some(RecordType::CNAME)
    } else if kw_match(t, "MX"@, case) {
        Some(RecordType::MX)
    } else if kw_match(t, "NS"@, case) {
        Some(RecordType::NS)
    } else if kw_match(t, "TXT"@, case) {
        Some(RecordType::TXT)
    } else if kw_match(t, "SRV"@, case) {
        Some(RecordType::SRV)
    } else {
        None
    }
}

impl RecordType {
    /// The keyword of this record type.
    pub fn as_str(&self) -> (r: &'static str)
        ensures
            r@ == record_type_text(*self),
    {
        match self {
            RecordType::A => "A",
            RecordType::AAAA => "AAAA",
            RecordType::CNAME => "CNAME",
            RecordType::MX => "MX",
            RecordType::NS => "NS",
            RecordType::TXT => "TXT",
            RecordType::SRV => "SRV",
        }
    }

    /// The record type that token `t` names under `case`.
    pub fn from_keyword(t: &str, case: CaseRule) -> (r: Option<RecordType>)
        ensures
            r == record_type_of(t@, case),
    {
        if keyword_is(t, "A", case) {
            Some(RecordType::A)
        } else if keyword_is(t, "AAAA", case) {
            Some(RecordType::AAAA)
        } else if keyword_is(t, "CNAME", case) {
            Some(RecordType::CNAME)
        } else if keyword_is(t, "MX", case) {
            Some(RecordType::MX)
        } else if keyword_is(t, "NS", case) {
            Some(RecordType::NS)
        } else if keyword_is(t, "TXT", case) {
            Some(RecordType::TXT)
        } else if keyword_is(t, "SRV", case) {
            Some(RecordType::SRV)
        } else {
            None
        }
    }
}

/// One DNS record of a domain.
#[derive(Debug, Clone, PartialEq, Eq)]
pub struct DnsEntry {
    pub name: String,
    pub ttl: u64,
    pub record_type: RecordType,
    /// Free text: the rest of the line.
    pub content: String,
}

/// Mathematical value of a [`DnsEntry`].
pub struct DnsEntryView {
    pub name: Seq<char>,
    pub ttl: u64,
    pub record_type: RecordType,
    pub content: Seq<char>,
}

impl View for DnsEntry {
    type V = DnsEntryView;

    open spec fn view(&self) -> DnsEntryView {
        DnsEntryView {
            name: self.name@,
            ttl: self.ttl,
            record_type: self.record_type,
            content: self.content@,
        }
    }
}

/// Reads a record from `s`: name, ttl, type, and the rest of the line as
/// content.
pub open spec fn parse_entry(s: Seq<char>, env: Seq<(Seq<char>, Seq<char>)>, case: CaseRule) -> Result<
    DnsEntryView,
    ErrorView,
> {
    match field(s, env, "record name"@) {
        Err(e) => Err(e),
        Ok(n) => match field(n.1, env, "ttl"@) {
            Err(e) => Err(e),
            Ok(t) => match parse_u64(t.0) {
                None => Err(ErrorView::InvalidNumber(t.0)),
                Some(ttl) => match next_token(t.1) {
                    None => Err(ErrorView::MissingRequiredField("record type"@)),
                    Some(k) => match record_type_of(k.0, case) {
                        None => Err(ErrorView::InvalidEnumValue(k.0, "record type"@)),
                        Some(ty) => match rest_of(k.1) {
                            None => Err(ErrorView::MissingRequiredField("content"@)),
                            Some(c) => match resolve(c, env, true) {
                                Err(e) => Err(e),
                                Ok(content) => Ok(
                                    DnsEntryView { name: n.0, ttl, record_type: ty, content },
                                ),
                            },
                        },
                    },
                },
            },
        },
    }
}

/// The canonical text of a record.
pub open spec fn render_entry(e: DnsEntryView) -> Seq<char> {
    e.name + (" "@ + (decimal(e.ttl as nat) + (" "@ + (record_type_text(e.record_type) + (" "@
        + e.content)))))
}

impl DnsEntry {
    /// Reads a record from the remaining words, up to the end of the line.
    pub fn from_words(words: &mut Words, env: &Environment, case: CaseRule) -> (r: Result<
        DnsEntry,
        Error,
    >)
        ensures
            crate::error::result_view(r) == parse_entry(old(words)@, env@, case),
    {
        let name = take_field(words, env, "record name")?;
        let ttl_text = take_field(words, env, "ttl")?;
        let ttl = match parse_number(ttl_text.as_str()) {
            None => return Err(Error::InvalidNumber(ttl_text)),
            Some(n) => n,
        };
        let kind = match words.next() {
            None => return Err(crate::error::missing("record type")),
            Some(k) => k,
        };
        let record_type = match RecordType::from_keyword(kind.as_str(), case) {
            None => return Err(Error::InvalidEnumValue(kind, "record type".to_owned())),
            Some(t) => t,
        };
        let content = match words.rest() {
            None => return Err(crate::error::missing("content")),
            Some(c) => resolve_token(c, env, true)?,
        };
        Ok(DnsEntry { name, ttl, record_type, content })
    }

    /// The canonical text of this record.
    pub fn to_string(&self) -> (r: String)
        ensures
            r@ == render_entry(self@),
    {
        let mut r = self.name.clone();
        r.append(" ");
        let n = render_number(self.ttl);
        r.append(n.as_str());
        r.append(" ");
        r.append(self.record_type.as_str());
        r.append(" ");
        r.append(self.content.as_str());
        assert(r@ =~= render_entry(self@));
        r
    }
}

/// Operations on the DNS records of a domain.
#[derive(Debug, Clone, PartialEq, Eq)]
pub enum DnsCommand {
    /// All records of a domain.
    List(String),
    /// Removes a record from a domain.
    Delete(String, DnsEntry),
    /// Adds a record to a domain.
    Insert(String, DnsEntry),
    /// Removes the ACME challenge record of a domain.
    AcmeValidationDelete(String),
    /// Sets the ACME challenge record of a domain: domain and challenge.
    AcmeValidationSet(String, String),
}

/// Mathematical value of a [`DnsCommand`].
pub enum DnsCommandView {
    List(Seq<char>),
    Delete(Seq<char>, DnsEntryView),
    Insert(Seq<char>, DnsEntryView),
    AcmeValidationDelete(Seq<char>),
    AcmeValidationSet(Seq<char>, Seq<char>),
}

impl View for DnsCommand {
    type V = DnsCommandView;

    open spec fn view(&self) -> DnsCommandView {
        match self {
            DnsCommand::List(d) => DnsCommandView::List(d@),
            DnsCommand::Delete(d, e) => DnsCommandView::Delete(d@, e@),
            DnsCommand::Insert(d, e) => DnsCommandView::Insert(d@, e@),
            DnsCommand::AcmeValidationDelete(d) => DnsCommandView::AcmeValidationDelete(d@),
            DnsCommand::AcmeValidationSet(d, c) => DnsCommandView::AcmeValidationSet(d@, c@),
        }
    }
}

pub open spec fn is_acme_delete(t: Seq<char>, case: CaseRule) -> bool {
    kw_match(t, "acme-validation-delete"@, case) || kw_match(t, "acme-challenge-delete"@, case)
}

pub open spec fn is_acme_set(t: Seq<char>, case: CaseRule) -> bool {
    kw_match(t, "acme-validation-set"@, case) || kw_match(t, "acme-challenge-set"@, case)
}

/// Whether `t` is a verb of the `dns` grammar.
pub open spec fn is_dns_verb(t: Seq<char>, case: CaseRule) -> bool {
    kw_match(t, "list"@, case) || is_acme_delete(t, case) || is_acme_set(t, case) || kw_match(
        t,
        "insert"@,
        case,
    ) || kw_match(t, "delete"@, case)
}

/// The verb `verb` of the `dns` grammar with the domain `d` read; `s` is
/// the text after the domain.
pub open spec fn parse_dns_verb(
    verb: Seq<char>,
    d: Seq<char>,
    s: Seq<char>,
    env: Seq<(Seq<char>, Seq<char>)>,
    case: CaseRule,
) -> Result<DnsCommandView, ErrorView> {
    if kw_match(verb, "list"@, case) {
        finish(s, DnsCommandView::List(d))
    } else if is_acme_delete(verb, case) {
        finish(s, DnsCommandView::AcmeValidationDelete(d))
    } else if is_acme_set(verb, case) {
        match field(s, env, "challenge"@) {
            Err(e) => Err(e),
            Ok(c) => finish(c.1, DnsCommandView::AcmeValidationSet(d, c.0)),
        }
    } else {
        match parse_entry(s, env, case) {
            Err(e) => Err(e),
            Ok(e) => if kw_match(verb, "insert"@, case) {
                Ok(DnsCommandView::Insert(d, e))
            } else {
                Ok(DnsCommandView::Delete(d, e))
            },
        }
    }
}

/// What the `dns` grammar makes of the text `s` after the keyword.
pub open spec fn parse_dns(s: Seq<char>, env: Seq<(Seq<char>, Seq<char>)>, case: CaseRule) -> Result<
    DnsCommandView,
    ErrorView,
> {
    match next_token(s) {
        None => Err(ErrorView::MissingSubCommand),
        Some(v) => if !is_dns_verb(v.0, case) {
            Err(ErrorView::WrongSubCommand(v.0))
        } else {
            match field(v.1, env, "domain name"@) {
                Err(e) => Err(e),
                Ok(d) => parse_dns_verb(v.0, d.0, d.1, env, case),
            }
        },
    }
}

/// The canonical text of a `dns` sub-command.
pub open spec fn render_dns(c: DnsCommandView) -> Seq<char> {
    match c {
        DnsCommandView::List(d) => "list"@ + (" "@ + d),
        DnsCommandView::Delete(d, e) => "delete"@ + (" "@ + (d + (" "@ + render_entry(e)))),
        DnsCommandView::Insert(d, e) => "insert"@ + (" "@ + (d + (" "@ + render_entry(e)))),
        DnsCommandView::AcmeValidationDelete(d) => "acme-validation-delete"@ + (" "@ + d),
        DnsCommandView::AcmeValidationSet(d, c) => "acme-validation-set"@ + (" "@ + (d + (" "@
            + c))),
    }
}

impl DnsCommand {
    /// Parses the words after the `dns` keyword.
    pub fn from_words(words: Words, env: &Environment, case: CaseRule) -> (r: Result<
        DnsCommand,
        Error,
    >)
        ensures
            crate::error::result_view(r) == parse_dns(words@, env@, case),
    {
        let mut words = words;
        let verb = match words.next() {
            None => return Err(Error::MissingSubCommand),
            Some(v) => v,
        };
        let v = verb.as_str();
        let list = keyword_is(v, "list", case);
        let acme_delete = keyword_is(v, "acme-validation-delete", case) || keyword_is(
            v,
            "acme-challenge-delete",
            case,
        );
        let acme_set = keyword_is(v, "acme-validation-set", case) || keyword_is(
            v,
            "acme-challenge-set",
            case,
        );
        let insert = keyword_is(v, "insert", case);
        let delete = keyword_is(v, "delete", case);
        if !list && !acme_delete && !acme_set && !insert && !delete {
            return Err(Error::WrongSubCommand(verb));
        }
        let domain = take_field(&mut words, env, "domain name")?;
        if list {
            expect_end(&mut words)?;
            Ok(DnsCommand::List(domain))
        } else if acme_delete {
            expect_end(&mut words)?;
            Ok(DnsCommand::AcmeValidationDelete(domain))
        } else if acme_set {
            let challenge = take_field(&mut words, env, "challenge")?;
            expect_end(&mut words)?;
            Ok(DnsCommand::AcmeValidationSet(domain, challenge))
        } else {
            let entry = DnsEntry::from_words(&mut words, env, case)?;
            if insert {
                Ok(DnsCommand::Insert(domain, entry))
            } else {
                Ok(DnsCommand::Delete(domain, entry))
            }
        }
    }

    /// The canonical text of this sub-command.
    pub fn to_string(&self) -> (r: String)
        ensures
            r@ == render_dns(self@),
    {
        match self {
            DnsCommand::List(d) => {
                let mut r = "list".to_owned();
                r.append(" ");
                r.append(d.as_str());
                assert(r@ =~= render_dns(self@));
                r
            },
            DnsCommand::Delete(d, e) => {
                let mut r = "delete".to_owned();
                r.append(" ");
                r.append(d.as_str());
                r.append(" ");
                let t = e.to_string();
                r.append(t.as_str());
                assert(r@ =~= render_dns(self@));
                r
            },
            DnsCommand::Insert(d, e) => {
                let mut r = "insert".to_owned();
                r.append(" ");
                r.append(d.as_str());
                r.append(" ");
                let t = e.to_string();
                r.append(t.as_str());
                assert(r@ =~= render_dns(self@));
                r
            },
            DnsCommand::AcmeValidationDelete(d) => {
                let mut r = "acme-validation-delete".to_owned();
                r.append(" ");
                r.append(d.as_str());
                assert(r@ =~= render_dns(self@));
                r
            },
            DnsCommand::AcmeValidationSet(d, c) => {
                let mut r = "acme-validation-set".to_owned();
                r.append(" ");
                r.append(d.as_str());
                r.append(" ");
                r.append(c.as_str());
                assert(r@ =~= render_dns(self@));
                r
            },
        }
    }
}

} // verus!
