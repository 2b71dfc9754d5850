//! The top-level command: dispatch of a line to its form or grammar, and
//! the canonical text of a command.
use vstd::prelude::*;
use vstd::string::*;
use crate::dns::{parse_dns, render_dns, DnsCommand, DnsCommandView};
use crate::domain::{parse_domain, render_domain, DomainCommand, DomainCommandView};
use crate::email::{parse_email, render_email, EmailCommand, EmailCommandView};
use crate::env::Environment;
use crate::error::{Error, ErrorView};
use crate::grammar::{expect_end, field, finish, take_field};
use crate::invoice::{parse_invoice, render_invoice, InvoiceCommand, InvoiceCommandView};
use crate::number::{decimal, parse_number, parse_u64, render_number};
use crate::product::{parse_product, render_product, ProductCommand, ProductCommandView};
use crate::text::{keyword_is, kw_match, str_eq, CaseRule};
use crate::vps::{parse_vps, render_vps, VpsCommand, VpsCommandView};
use crate::words::{next_token, rest_of, Words};

verus! {

/// What the script runner does after a line fails.
#[derive(Clone, Copy, Debug, PartialEq, Eq)]
pub enum OnError {
    /// Report the error and go on with the next line.
    Print,
    /// Report the error and stop.
    Exit,
}

/// The keyword of an on-error mode.
pub open spec fn on_error_text(m: OnError) -> Seq<char> {
    match m {
        OnError::Print => "print"@,
        OnError::Exit => "exit"@,
    }
}

/// The on-error mode that token `t` names under `case`.
pub open spec fn on_error_of(t: Seq<char>, case: CaseRule) -> Option<OnError> {
    if kw_match(t, "print"@, case) {
        Some(OnError::Print)
    } else if kw_match(t, "exit"@, case) {
        Some(OnError::Exit)
    } else {
        None
    }
}

impl OnError {
    /// The keyword of this mode.
    pub fn as_str(&self) -> (r: &'static str)
        ensures
            r@ == on_error_text(*self),
    {
        match self {
            OnError::Print => "print",
            OnError::Exit => "exit",
        }
    }

    /// The mode that token `t` names under `case`.
    pub fn from_keyword(t: &str, case: CaseRule) -> (r: Option<OnError>)
        ensures
            r == on_error_of(t@, case),
    {
        if keyword_is(t, "print", case) {
            Some(OnError::Print)
        } else if keyword_is(t, "exit", case) {
            Some(OnError::Exit)
        } else {
            None
        }
    }
}

/// One line of a script.
#[derive(Debug, Clone, PartialEq, Eq)]
pub enum TransipCommand {
    /// The availability zones of the provider.
    AvailabilityZones,
    /// A comment line, kept as it was written.
    Comment(String),
    Dns(DnsCommand),
    Domain(DomainCommand),
    EmailBox(EmailCommand),
    EmailForward(EmailCommand),
    Invoice(InvoiceCommand),
    /// Sets what happens after a failing line.
    OnError(OnError),
    /// Checks that the provider answers.
    Ping,
    Product(ProductCommand),
    /// Waits this many seconds.
    Sleep(u64),
    Vps(VpsCommand),
}

/// Mathematical value of a [`TransipCommand`].
pub enum TransipCommandView {
    AvailabilityZones,
    Comment(Seq<char>),
    Dns(DnsCommandView),
    Domain(DomainCommandView),
    EmailBox(EmailCommandView),
    EmailForward(EmailCommandView),
    Invoice(InvoiceCommandView),
    OnError(OnError),
    Ping,
    Product(ProductCommandView),
    Sleep(u64),
    Vps(VpsCommandView),
}

impl View for TransipCommand {
    type V = TransipCommandView;

    open spec fn view(&self) -> TransipCommandView {
        match self {
            TransipCommand::AvailabilityZones => TransipCommandView::AvailabilityZones,
            TransipCommand::Comment(t) => TransipCommandView::Comment(t@),
            TransipCommand::Dns(c) => TransipCommandView::Dns(c@),
            TransipCommand::Domain(c) => TransipCommandView::Domain(c@),
            TransipCommand::EmailBox(c) => TransipCommandView::EmailBox(c@),
            TransipCommand::EmailForward(c) => TransipCommandView::EmailForward(c@),
            TransipCommand::Invoice(c) => TransipCommandView::Invoice(c@),
            TransipCommand::OnError(m) => TransipCommandView::OnError(*m),
            TransipCommand::Ping => TransipCommandView::Ping,
            TransipCommand::Product(c) => TransipCommandView::Product(c@),
            TransipCommand::Sleep(n) => TransipCommandView::Sleep(*n),
            TransipCommand::Vps(c) => TransipCommandView::Vps(c@),
        }
    }
}

/// `sleep <seconds>`, with `s` the text after the keyword.
pub open spec fn parse_sleep(s: Seq<char>, env: Seq<(Seq<char>, Seq<char>)>) -> Result<
    TransipCommandView,
    ErrorView,
> {
    match field(s, env, "seconds"@) {
        Err(e) => Err(e),
        Ok(n) => match parse_u64(n.0) {
            None => Err(ErrorView::InvalidNumber(n.0)),
            Some(v) => finish(n.1, TransipCommandView::Sleep(v)),
        },
    }
}

/// `onerror <mode>`, with `s` the text after the keyword.
pub open spec fn parse_on_error(s: Seq<char>, case: CaseRule) -> Result<
    TransipCommandView,
    ErrorView,
> {
    match next_token(s) {
        None => Err(ErrorView::MissingRequiredField("mode"@)),
        Some(m) => match on_error_of(m.0, case) {
            None => Err(ErrorView::InvalidEnumValue(m.0, "onerror"@)),
            Some(v) => finish(m.1, TransipCommandView::OnError(v)),
        },
    }
}

/// A line whose first token is `k` and whose text after it is `s`.
pub open spec fn parse_keyword_line(
    line: Seq<char>,
    k: Seq<char>,
    s: Seq<char>,
    env: Seq<(Seq<char>, Seq<char>)>,
    case: CaseRule,
) -> Result<TransipCommandView, ErrorView> {
    if k == "sleep"@ {
        parse_sleep(s, env)
    } else if k == "onerror"@ {
        parse_on_error(s, case)
    } else if k == "dns"@ {
        match parse_dns(s, env, case) {
            Ok(c) => Ok(TransipCommandView::Dns(c)),
            Err(e) => Err(e),
        }
    } else if k == "domain"@ {
        match parse_domain(s, env, case) {
            Ok(c) => Ok(TransipCommandView::Domain(c)),
            Err(e) => Err(e),
        }
    } else if k == "email-box"@ {
        match parse_email(s, env, case) {
            Ok(c) => Ok(TransipCommandView::EmailBox(c)),
            Err(e) => Err(e),
        }
    } else if k == "email-forward"@ {
        match parse_email(s, env, case) {
            Ok(c) => Ok(TransipCommandView::EmailForward(c)),
            Err(e) => Err(e),
        }
    } else if k == "invoice"@ {
        match parse_invoice(s, env, case) {
            Ok(c) => Ok(TransipCommandView::Invoice(c)),
            Err(e) => Err(e),
        }
    } else if k == "product"@ {
        match parse_product(s, env, case) {
            Ok(c) => Ok(TransipCommandView::Product(c)),
            Err(e) => Err(e),
        }
    } else if k == "vps"@ {
        match parse_vps(s, env, case) {
            Ok(c) => Ok(TransipCommandView::Vps(c)),
            Err(e) => Err(e),
        }
    } else {
        Err(ErrorView::UnparseableLine(line))
    }
}

/// What a whole line parses to.
pub open spec fn parse_command(line: Seq<char>, env: Seq<(Seq<char>, Seq<char>)>, case: CaseRule) -> Result<
    TransipCommandView,
    ErrorView,
> {
    match rest_of(line) {
        None => Err(ErrorView::UnparseableLine(line)),
        Some(t) => if t[0] == '#' {
            Ok(TransipCommandView::Comment(line))
        } else if t == "ping"@ {
            Ok(TransipCommandView::Ping)
        } else if t == "availability-zones"@ {
            Ok(TransipCommandView::AvailabilityZones)
        } else {
            match next_token(line) {
                None => Err(ErrorView::UnparseableLine(line)),
                Some(k) => parse_keyword_line(line, k.0, k.1, env, case),
            }
        },
    }
}

/// The canonical text of a command.
pub open spec fn render_command(c: TransipCommandView) -> Seq<char> {
    match c {
        TransipCommandView::AvailabilityZones => "availability-zones"@,
        TransipCommandView::Comment(t) => t,
        TransipCommandView::Dns(d) => "dns"@ + (" "@ + render_dns(d)),
        TransipCommandView::Domain(d) => "domain"@ + (" "@ + render_domain(d)),
        TransipCommandView::EmailBox(e) => "email-box"@ + (" "@ + render_email(e)),
        TransipCommandView::EmailForward(e) => "email-forward"@ + (" "@ + render_email(e)),
        TransipCommandView::Invoice(i) => "invoice"@ + (" "@ + render_invoice(i)),
        TransipCommandView::OnError(m) => "onerror"@ + (" "@ + on_error_text(m)),
        TransipCommandView::Ping => "ping"@,
        TransipCommandView::Product(p) => "product"@ + (" "@ + render_product(p)),
        TransipCommandView::Sleep(n) => "sleep"@ + (" "@ + decimal(n as nat)),
        TransipCommandView::Vps(v) => "vps"@ + (" "@ + render_vps(v)),
    }
}

/// `a`, a space, then `b`.
fn joined(a: &str, b: &str) -> (r: String)
    ensures
        r@ == a@ + (" "@ + b@),
{
    let mut r = a.to_owned();
    r.append(" ");
    r.append(b);
    assert(r@ =~= a@ + (" "@ + b@));
    r
}

impl TransipCommand {
    /// Parses one line of a script; `env` supplies the values of
    /// placeholders and `case` says how verbs and enumerated values are
    /// compared.
    pub fn parse(line: &str, env: &Environment, case: CaseRule) -> (r: Result<
        TransipCommand,
        Error,
    >)
        ensures
            crate::error::result_view(r) == parse_command(line@, env@, case),
    {
        let mut all = Words::from(line);
        let trimmed = match all.rest() {
            None => return Err(Error::UnparseableLine(line.to_owned())),
            Some(t) => t,
        };
        let t = trimmed.as_str();
        if t.get_char(0) == '#' {
            return Ok(TransipCommand::Comment(line.to_owned()));
        }
        if str_eq(t, "ping") {
            return Ok(TransipCommand::Ping);
        }
        if str_eq(t, "availability-zones") {
            return Ok(TransipCommand::AvailabilityZones);
        }
        let mut words = Words::from(line);
        let keyword = match words.next() {
            None => return Err(Error::UnparseableLine(line.to_owned())),
            Some(k) => k,
        };
        let k = keyword.as_str();
        if str_eq(k, "sleep") {
            let text = take_field(&mut words, env, "seconds")?;
            let n = match parse_number(text.as_str()) {
                None => return Err(Error::InvalidNumber(text)),
                Some(n) => n,
            };
            expect_end(&mut words)?;
            Ok(TransipCommand::Sleep(n))
        } else if str_eq(k, "onerror") {
            let mode = match words.next() {
                None => return Err(crate::error::missing("mode")),
                Some(m) => m,
            };
            let m = match OnError::from_keyword(mode.as_str(), case) {
                None => return Err(Error::InvalidEnumValue(mode, "onerror".to_owned())),
                Some(m) => m,
            };
            expect_end(&mut words)?;
            Ok(TransipCommand::OnError(m))
        } else if str_eq(k, "dns") {
            match DnsCommand::from_words(words, env, case) {
                Ok(c) => Ok(TransipCommand::Dns(c)),
                Err(e) => Err(e),
            }
        } else if str_eq(k, "domain") {
            match DomainCommand::from_words(words, env, case) {
                Ok(c) => Ok(TransipCommand::Domain(c)),
                Err(e) => Err(e),
            }
        } else if str_eq(k, "email-box") {
            match EmailCommand::from_words(words, env, case) {
                Ok(c) => Ok(TransipCommand::EmailBox(c)),
                Err(e) => Err(e),
            }
        } else if str_eq(k, "email-forward") {
            match EmailCommand::from_words(words, env, case) {
                Ok(c) => Ok(TransipCommand::EmailForward(c)),
                Err(e) => Err(e),
            }
        } else if str_eq(k, "invoice") {
            match InvoiceCommand::from_words(words, env, case) {
                Ok(c) => Ok(TransipCommand::Invoice(c)),
                Err(e) => Err(e),
            }
        } else if str_eq(k, "product") {
            match ProductCommand::from_words(words, env, case) {
                Ok(c) => Ok(TransipCommand::Product(c)),
                Err(e) => Err(e),
            }
        } else if str_eq(k, "vps") {
            match VpsCommand::from_words(words, env, case) {
                Ok(c) => Ok(TransipCommand::Vps(c)),
                Err(e) => Err(e),
            }
        } else {
            Err(Error::UnparseableLine(line.to_owned()))
        }
    }

    /// The canonical text of this command.
    pub fn to_string(&self) -> (r: String)
        ensures
            r@ == render_command(self@),
    {
        match self {
            TransipCommand::AvailabilityZones => "availability-zones".to_owned(),
            TransipCommand::Comment(t) => t.clone(),
            TransipCommand::Dns(c) => joined("dns", c.to_string().as_str()),
            TransipCommand::Domain(c) => joined("domain", c.to_string().as_str()),
            TransipCommand::EmailBox(c) => joined("email-box", c.to_string().as_str()),
            TransipCommand::EmailForward(c) => joined("email-forward", c.to_string().as_str()),
            TransipCommand::Invoice(c) => joined("invoice", c.to_string().as_str()),
            TransipCommand::OnError(m) => joined("onerror", m.as_str()),
            TransipCommand::Ping => "ping".to_owned(),
            TransipCommand::Product(c) => joined("product", c.to_string().as_str()),
            TransipCommand::Sleep(n) => joined("sleep", render_number(*n).as_str()),
            TransipCommand::Vps(c) => joined("vps", c.to_string().as_str()),
        }
    }
}

} // verus!
