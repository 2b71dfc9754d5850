//! Properties that relate the parser, the renderer and the tokenizer.
use vstd::prelude::*;
use crate::command::{
    on_error_of, on_error_text, parse_command, parse_keyword_line, parse_on_error, parse_sleep,
    render_command, OnError, TransipCommandView,
};
use crate::dns::{
    parse_dns, parse_dns_verb, parse_entry, record_type_of, record_type_text, render_dns,
    render_entry, DnsCommandView, DnsEntryView, RecordType,
};
use crate::domain::{parse_domain, render_domain, DomainCommandView};
use crate::email::{parse_email, parse_email_record, render_email, EmailCommandView};
use crate::env::is_placeholder;
use crate::error::ErrorView;
use crate::grammar::{
    field, lemma_field_render, lemma_keyword_last, lemma_keyword_render, lemma_last_field_render,
    valid_field,
};
use crate::invoice::{
    invoice_action_of, invoice_action_text, parse_invoice, render_invoice, InvoiceAction,
    InvoiceCommandView,
};
use crate::number::{decimal, lemma_decimal, parse_u64};
use crate::product::{parse_product, render_product, ProductCommandView};
use crate::text::{is_ws, kw_match, lemma_kw_differ, lemma_kw_self, CaseRule};
use crate::vps::{parse_vps, render_vps, vps_action_of, vps_action_text, VpsAction, VpsCommandView};
use crate::words::{
    all_ws, is_token, lemma_next_suffix, lemma_rest_suffix, lemma_rest_trimmed, lemma_ws_prefix,
    next_token, rest_of,
};

verus! {

proof fn lemma_field_suffix(
    s: Seq<char>,
    b: Seq<char>,
    env: Seq<(Seq<char>, Seq<char>)>,
    name: Seq<char>,
)
    requires
        all_ws(b),
    ensures
        match field(s, env, name) {
            Ok(p) => field(s + b, env, name) == Ok::<_, ErrorView>((p.0, p.1 + b)),
            Err(e) => field(s + b, env, name) == Err::<(Seq<char>, Seq<char>), _>(e),
        },
{
    lemma_next_suffix(s, b);
}

proof fn lemma_entry_suffix(
    s: Seq<char>,
    b: Seq<char>,
    env: Seq<(Seq<char>, Seq<char>)>,
    case: CaseRule,
)
    requires
        all_ws(b),
    ensures
        parse_entry(s + b, env, case) == parse_entry(s, env, case),
{
    lemma_field_suffix(s, b, env, "record name"@);
    match field(s, env, "record name"@) {
        Ok(n) => {
            lemma_field_suffix(n.1, b, env, "ttl"@);
            match field(n.1, env, "ttl"@) {
                Ok(t) => {
                    lemma_next_suffix(t.1, b);
                    match next_token(t.1) {
                        Some(k) => lemma_rest_suffix(k.1, b),
                        None => {},
                    }
                },
                Err(_) => {},
            }
        },
        Err(_) => {},
    }
}

proof fn lemma_dns_suffix(s: Seq<char>, b: Seq<char>, env: Seq<(Seq<char>, Seq<char>)>, case: CaseRule)
    requires
        all_ws(b),
    ensures
        parse_dns(s + b, env, case) == parse_dns(s, env, case),
{
    lemma_next_suffix(s, b);
    match next_token(s) {
        Some(v) => {
            lemma_field_suffix(v.1, b, env, "domain name"@);
            match field(v.1, env, "domain name"@) {
                Ok(d) => {
                    lemma_rest_suffix(d.1, b);
                    lemma_field_suffix(d.1, b, env, "challenge"@);
                    match field(d.1, env, "challenge"@) {
                        Ok(c) => lemma_rest_suffix(c.1, b),
                        Err(_) => {},
                    }
                    lemma_entry_suffix(d.1, b, env, case);
                    assert(parse_dns_verb(v.0, d.0, d.1 + b, env, case) == parse_dns_verb(
                        v.0,
                        d.0,
                        d.1,
                        env,
                        case,
                    ));
                },
                Err(_) => {},
            }
        },
        None => {},
    }
}

proof fn lemma_domain_suffix(
    s: Seq<char>,
    b: Seq<char>,
    env: Seq<(Seq<char>, Seq<char>)>,
    case: CaseRule,
)
    requires
        all_ws(b),
    ensures
        parse_domain(s + b, env, case) == parse_domain(s, env, case),
{
    lemma_next_suffix(s, b);
    match next_token(s) {
        Some(v) => {
            lemma_rest_suffix(v.1, b);
            lemma_field_suffix(v.1, b, env, "domain name"@);
            match field(v.1, env, "domain name"@) {
                Ok(d) => lemma_rest_suffix(d.1, b),
                Err(_) => {},
            }
        },
        None => {},
    }
}

proof fn lemma_product_suffix(
    s: Seq<char>,
    b: Seq<char>,
    env: Seq<(Seq<char>, Seq<char>)>,
    case: CaseRule,
)
    requires
        all_ws(b),
    ensures
        parse_product(s + b, env, case) == parse_product(s, env, case),
{
    lemma_next_suffix(s, b);
    match next_token(s) {
        Some(v) => {
            lemma_rest_suffix(v.1, b);
            lemma_field_suffix(v.1, b, env, "product name"@);
            match field(v.1, env, "product name"@) {
                Ok(d) => lemma_rest_suffix(d.1, b),
                Err(_) => {},
            }
        },
        None => {},
    }
}

proof fn lemma_invoice_suffix(
    s: Seq<char>,
    b: Seq<char>,
    env: Seq<(Seq<char>, Seq<char>)>,
    case: CaseRule,
)
    requires
        all_ws(b),
    ensures
        parse_invoice(s + b, env, case) == parse_invoice(s, env, case),
{
    lemma_next_suffix(s, b);
    match next_token(s) {
        Some(v) => {
            lemma_rest_suffix(v.1, b);
            lemma_field_suffix(v.1, b, env, "invoice number"@);
            match field(v.1, env, "invoice number"@) {
                Ok(d) => lemma_rest_suffix(d.1, b),
                Err(_) => {},
            }
        },
        None => {},
    }
}

proof fn lemma_vps_suffix(s: Seq<char>, b: Seq<char>, env: Seq<(Seq<char>, Seq<char>)>, case: CaseRule)
    requires
        all_ws(b),
    ensures
        parse_vps(s + b, env, case) == parse_vps(s, env, case),
{
    lemma_next_suffix(s, b);
    match next_token(s) {
        Some(v) => {
            lemma_rest_suffix(v.1, b);
            lemma_field_suffix(v.1, b, env, "vps name"@);
            match field(v.1, env, "vps name"@) {
                Ok(d) => lemma_rest_suffix(d.1, b),
                Err(_) => {},
            }
        },
        None => {},
    }
}

proof fn lemma_email_suffix(
    s: Seq<char>,
    b: Seq<char>,
    env: Seq<(Seq<char>, Seq<char>)>,
    case: CaseRule,
)
    requires
        all_ws(b),
    ensures
        parse_email(s + b, env, case) == parse_email(s, env, case),
{
    lemma_next_suffix(s, b);
    match next_token(s) {
        Some(v) => {
            lemma_field_suffix(v.1, b, env, "domain name"@);
            match field(v.1, env, "domain name"@) {
                Ok(d) => {
                    lemma_rest_suffix(d.1, b);
                    lemma_field_suffix(d.1, b, env, "value"@);
                    match field(d.1, env, "value"@) {
                        Ok(x) => lemma_rest_suffix(x.1, b),
                        Err(_) => {},
                    }
                    lemma_field_suffix(d.1, b, env, "id"@);
                    match field(d.1, env, "id"@) {
                        Ok(i) => {
                            lemma_rest_suffix(i.1, b);
                            lemma_field_suffix(i.1, b, env, "value"@);
                            match field(i.1, env, "value"@) {
                                Ok(x) => lemma_rest_suffix(x.1, b),
                                Err(_) => {},
                            }
                        },
                        Err(_) => {},
                    }
                    assert(parse_email_record(v.0, d.0, d.1 + b, env, case) == parse_email_record(
                        v.0,
                        d.0,
                        d.1,
                        env,
                        case,
                    ));
                },
                Err(_) => {},
            }
        },
        None => {},
    }
}

#[verifier::rlimit(40)]
proof fn lemma_keyword_line_suffix(
    line: Seq<char>,
    padded: Seq<char>,
    k: Seq<char>,
    s: Seq<char>,
    b: Seq<char>,
    env: Seq<(Seq<char>, Seq<char>)>,
    case: CaseRule,
)
    requires
        all_ws(b),
        parse_keyword_line(line, k, s, env, case) is Ok,
    ensures
        parse_keyword_line(padded, k, s + b, env, case) == parse_keyword_line(line, k, s, env, case),
{
    lemma_field_suffix(s, b, env, "seconds"@);
    match field(s, env, "seconds"@) {
        Ok(n) => lemma_rest_suffix(n.1, b),
        Err(_) => {},
    }
    lemma_next_suffix(s, b);
    match next_token(s) {
        Some(m) => lemma_rest_suffix(m.1, b),
        None => {},
    }
    assert(parse_sleep(s + b, env) == parse_sleep(s, env));
    assert(parse_on_error(s + b, case) == parse_on_error(s, case));
    lemma_dns_suffix(s, b, env, case);
    lemma_domain_suffix(s, b, env, case);
    lemma_email_suffix(s, b, env, case);
    lemma_invoice_suffix(s, b, env, case);
    lemma_product_suffix(s, b, env, case);
    lemma_vps_suffix(s, b, env, case);
}

/// Padding a line that parses to a command other than a comment with
/// whitespace on either side (such as two spaces before it and three after
/// it) does not change what it parses to.
#[verifier::rlimit(40)]
pub proof fn law_whitespace_padding(
    line: Seq<char>,
    a: Seq<char>,
    b: Seq<char>,
    env: Seq<(Seq<char>, Seq<char>)>,
    case: CaseRule,
)
    requires
        all_ws(a),
        all_ws(b),
        parse_command(line, env, case) is Ok,
        !(parse_command(line, env, case)->Ok_0 is Comment),
    ensures
        parse_command(a + line + b, env, case) == parse_command(line, env, case),
{
    let padded = a + line + b;
    assert(padded =~= a + (line + b));
    lemma_ws_prefix(a, line + b);
    lemma_rest_suffix(line, b);
    lemma_next_suffix(line, b);
    match next_token(line) {
        Some(k) => if parse_keyword_line(line, k.0, k.1, env, case) is Ok {
            lemma_keyword_line_suffix(line, padded, k.0, k.1, b, env, case);
        },
        None => {},
    }
}


/// The fields of a `domain` sub-command render and read back as themselves.
pub open spec fn valid_domain(c: DomainCommandView) -> bool {
    match c {
        DomainCommandView::List => true,
        DomainCommandView::Item(d) => valid_field(d),
    }
}

proof fn lemma_domain_round_trip(c: DomainCommandView, env: Seq<(Seq<char>, Seq<char>)>, case: CaseRule)
    requires
        valid_domain(c),
    ensures
        parse_domain(" "@ + render_domain(c), env, case) == Ok::<_, ErrorView>(c),
        render_domain(c).len() > 0,
        !is_ws(render_domain(c).last()),
{
    reveal_strlit("list");
    reveal_strlit("item");
    lemma_kw_self("list"@, case);
    lemma_kw_self("item"@, case);
    match c {
        DomainCommandView::List => lemma_keyword_last("list"@),
        DomainCommandView::Item(d) => {
            lemma_keyword_render("item"@, d);
            lemma_kw_differ("item"@, "list"@, case, 0);
            lemma_last_field_render(d, env, "domain name"@);
        },
    }
}

/// The fields of a `product` sub-command render and read back as themselves.
pub open spec fn valid_product(c: ProductCommandView) -> bool {
    match c {
        ProductCommandView::List => true,
        ProductCommandView::Elements(p) => valid_field(p),
    }
}

proof fn lemma_product_round_trip(
    c: ProductCommandView,
    env: Seq<(Seq<char>, Seq<char>)>,
    case: CaseRule,
)
    requires
        valid_product(c),
    ensures
        parse_product(" "@ + render_product(c), env, case) == Ok::<_, ErrorView>(c),
        render_product(c).len() > 0,
        !is_ws(render_product(c).last()),
{
    reveal_strlit("list");
    reveal_strlit("elements");
    lemma_kw_self("list"@, case);
    lemma_kw_self("elements"@, case);
    match c {
        ProductCommandView::List => lemma_keyword_last("list"@),
        ProductCommandView::Elements(p) => {
            lemma_keyword_render("elements"@, p);
            lemma_last_field_render(p, env, "product name"@);
        },
    }
}

/// Each invoice action is a token whose keyword names it again.
proof fn lemma_invoice_action(a: InvoiceAction, case: CaseRule)
    ensures
        is_token(invoice_action_text(a)),
        invoice_action_of(invoice_action_text(a), case) == Some(a),
        !kw_match(invoice_action_text(a), "list"@, case),
{
    reveal_strlit("list");
    reveal_strlit("item");
    reveal_strlit("pdf");
    lemma_kw_self(invoice_action_text(a), case);
    lemma_kw_differ("item"@, "list"@, case, 0);
}

/// The fields of an `invoice` sub-command render and read back as themselves.
pub open spec fn valid_invoice(c: InvoiceCommandView) -> bool {
    match c {
        InvoiceCommandView::List => true,
        InvoiceCommandView::Action(n, _) => valid_field(n),
    }
}

proof fn lemma_invoice_round_trip(
    c: InvoiceCommandView,
    env: Seq<(Seq<char>, Seq<char>)>,
    case: CaseRule,
)
    requires
        valid_invoice(c),
    ensures
        parse_invoice(" "@ + render_invoice(c), env, case) == Ok::<_, ErrorView>(c),
        render_invoice(c).len() > 0,
        !is_ws(render_invoice(c).last()),
{
    reveal_strlit("list");
    lemma_kw_self("list"@, case);
    match c {
        InvoiceCommandView::List => lemma_keyword_last("list"@),
        InvoiceCommandView::Action(n, a) => {
            lemma_invoice_action(a, case);
            lemma_keyword_render(invoice_action_text(a), n);
            lemma_last_field_render(n, env, "invoice number"@);
        },
    }
}

/// Each vps action is a token whose keyword names it again.
#[verifier::rlimit(40)]
proof fn lemma_vps_action(a: VpsAction, case: CaseRule)
    ensures
        is_token(vps_action_text(a)),
        vps_action_of(vps_action_text(a), case) == Some(a),
        !kw_match(vps_action_text(a), "list"@, case),
{
    reveal_strlit("list");
    reveal_strlit("item");
    reveal_strlit("lock");
    reveal_strlit("unlock");
    reveal_strlit("start");
    reveal_strlit("stop");
    reveal_strlit("reset");
    lemma_kw_self(vps_action_text(a), case);
    lemma_kw_differ("item"@, "list"@, case, 0);
    lemma_kw_differ("lock"@, "list"@, case, 1);
    lemma_kw_differ("lock"@, "item"@, case, 0);
    lemma_kw_differ("stop"@, "list"@, case, 0);
    lemma_kw_differ("stop"@, "item"@, case, 0);
    lemma_kw_differ("stop"@, "lock"@, case, 0);
    lemma_kw_differ("start"@, "reset"@, case, 0);
}

/// The fields of a `vps` sub-command render and read back as themselves.
pub open spec fn valid_vps(c: VpsCommandView) -> bool {
    match c {
        VpsCommandView::List => true,
        VpsCommandView::Action(n, _) => valid_field(n),
    }
}

proof fn lemma_vps_round_trip(c: VpsCommandView, env: Seq<(Seq<char>, Seq<char>)>, case: CaseRule)
    requires
        valid_vps(c),
    ensures
        parse_vps(" "@ + render_vps(c), env, case) == Ok::<_, ErrorView>(c),
        render_vps(c).len() > 0,
        !is_ws(render_vps(c).last()),
{
    reveal_strlit("list");
    lemma_kw_self("list"@, case);
    match c {
        VpsCommandView::List => lemma_keyword_last("list"@),
        VpsCommandView::Action(n, a) => {
            lemma_vps_action(a, case);
            lemma_keyword_render(vps_action_text(a), n);
            lemma_last_field_render(n, env, "vps name"@);
        },
    }
}


/// The fields of an e-mail sub-command render and read back as themselves.
pub open spec fn valid_email(c: EmailCommandView) -> bool {
    match c {
        EmailCommandView::Delete(d, i) => valid_field(d) && valid_field(i),
        EmailCommandView::Insert(d, v) => valid_field(d) && valid_field(v),
        EmailCommandView::Item(d, i) => valid_field(d) && valid_field(i),
        EmailCommandView::List(d) => valid_field(d),
        EmailCommandView::Update(d, i, v) => valid_field(d) && valid_field(i) && valid_field(v),
    }
}

#[verifier::rlimit(40)]
proof fn lemma_email_round_trip(c: EmailCommandView, env: Seq<(Seq<char>, Seq<char>)>, case: CaseRule)
    requires
        valid_email(c),
    ensures
        parse_email(" "@ + render_email(c), env, case) == Ok::<_, ErrorView>(c),
        render_email(c).len() > 0,
        !is_ws(render_email(c).last()),
{
    reveal_strlit(" ");
    reveal_strlit("list");
    reveal_strlit("item");
    reveal_strlit("delete");
    reveal_strlit("insert");
    reveal_strlit("update");
    lemma_kw_self("list"@, case);
    lemma_kw_self("item"@, case);
    lemma_kw_self("delete"@, case);
    lemma_kw_self("insert"@, case);
    lemma_kw_self("update"@, case);
    lemma_kw_differ("item"@, "list"@, case, 0);
    lemma_kw_differ("delete"@, "insert"@, case, 0);
    lemma_kw_differ("update"@, "insert"@, case, 0);
    lemma_kw_differ("update"@, "delete"@, case, 0);
    match c {
        EmailCommandView::List(d) => {
            lemma_keyword_render("list"@, d);
            lemma_last_field_render(d, env, "domain name"@);
        },
        EmailCommandView::Insert(d, v) => {
            lemma_keyword_render("insert"@, d + (" "@ + v));
            lemma_field_render(d, " "@ + v, env, "domain name"@);
            lemma_last_field_render(v, env, "value"@);
        },
        EmailCommandView::Item(d, i) => {
            lemma_keyword_render("item"@, d + (" "@ + i));
            lemma_field_render(d, " "@ + i, env, "domain name"@);
            lemma_last_field_render(i, env, "id"@);
        },
        EmailCommandView::Delete(d, i) => {
            lemma_keyword_render("delete"@, d + (" "@ + i));
            lemma_field_render(d, " "@ + i, env, "domain name"@);
            lemma_last_field_render(i, env, "id"@);
        },
        EmailCommandView::Update(d, i, v) => {
            lemma_keyword_render("update"@, d + (" "@ + (i + (" "@ + v))));
            lemma_field_render(d, " "@ + (i + (" "@ + v)), env, "domain name"@);
            lemma_field_render(i, " "@ + v, env, "id"@);
            lemma_last_field_render(v, env, "value"@);
        },
    }
}

/// Each record type is a token whose keyword names it again.
proof fn lemma_record_type(t: RecordType, case: CaseRule)
    ensures
        is_token(record_type_text(t)),
        record_type_of(record_type_text(t), case) == Some(t),
{
    reveal_strlit("A");
    reveal_strlit("AAAA");
    reveal_strlit("CNAME");
    reveal_strlit("MX");
    reveal_strlit("NS");
    reveal_strlit("TXT");
    reveal_strlit("SRV");
    lemma_kw_self(record_type_text(t), case);
    lemma_kw_differ("NS"@, "MX"@, case, 0);
    lemma_kw_differ("SRV"@, "TXT"@, case, 0);
}

/// The decimal writing of a number is a valid field that reads back as it.
proof fn lemma_decimal_field(n: u64)
    ensures
        valid_field(decimal(n as nat)),
        parse_u64(decimal(n as nat)) == Some(n),
{
    lemma_decimal(n as nat);
    let d = decimal(n as nat);
    assert forall|i: int| 0 <= i < d.len() implies !is_ws(#[trigger] d[i]) by {
        assert(crate::number::is_digit(d[i]));
    }
    assert(crate::number::is_digit(d[0]));
}

/// Free text for the rest of a line: non-empty, without whitespace at
/// either end, and not a placeholder `${NAME}`.
pub open spec fn valid_content(c: Seq<char>) -> bool {
    c.len() > 0 && !is_ws(c[0]) && !is_ws(c.last()) && !is_placeholder(c)
}

/// The fields of a DNS record render and read back as themselves.
pub open spec fn valid_entry(e: DnsEntryView) -> bool {
    valid_field(e.name) && valid_content(e.content)
}

#[verifier::rlimit(40)]
proof fn lemma_entry_round_trip(e: DnsEntryView, env: Seq<(Seq<char>, Seq<char>)>, case: CaseRule)
    requires
        valid_entry(e),
    ensures
        parse_entry(" "@ + render_entry(e), env, case) == Ok::<_, ErrorView>(e),
        render_entry(e).len() > 0,
        !is_ws(render_entry(e).last()),
{
    reveal_strlit(" ");
    let dec = decimal(e.ttl as nat);
    let rt = record_type_text(e.record_type);
    let r2 = " "@ + (rt + (" "@ + e.content));
    lemma_decimal_field(e.ttl);
    lemma_record_type(e.record_type, case);
    lemma_field_render(e.name, " "@ + (dec + r2), env, "record name"@);
    lemma_field_render(dec, r2, env, "ttl"@);
    lemma_keyword_render(rt, e.content);
    lemma_ws_prefix(" "@, e.content);
    lemma_rest_trimmed(e.content);
}

/// The fields of a `dns` sub-command render and read back as themselves.
pub open spec fn valid_dns(c: DnsCommandView) -> bool {
    match c {
        DnsCommandView::List(d) => valid_field(d),
        DnsCommandView::Delete(d, e) => valid_field(d) && valid_entry(e),
        DnsCommandView::Insert(d, e) => valid_field(d) && valid_entry(e),
        DnsCommandView::AcmeValidationDelete(d) => valid_field(d),
        DnsCommandView::AcmeValidationSet(d, c) => valid_field(d) && valid_field(c),
    }
}

#[verifier::rlimit(40)]
proof fn lemma_dns_round_trip(c: DnsCommandView, env: Seq<(Seq<char>, Seq<char>)>, case: CaseRule)
    requires
        valid_dns(c),
    ensures
        parse_dns(" "@ + render_dns(c), env, case) == Ok::<_, ErrorView>(c),
        render_dns(c).len() > 0,
        !is_ws(render_dns(c).last()),
{
    reveal_strlit(" ");
    reveal_strlit("list");
    reveal_strlit("insert");
    reveal_strlit("delete");
    reveal_strlit("acme-validation-delete");
    reveal_strlit("acme-challenge-delete");
    reveal_strlit("acme-validation-set");
    reveal_strlit("acme-challenge-set");
    lemma_kw_self("list"@, case);
    lemma_kw_self("insert"@, case);
    lemma_kw_self("delete"@, case);
    lemma_kw_self("acme-validation-delete"@, case);
    lemma_kw_self("acme-validation-set"@, case);
    lemma_kw_differ("delete"@, "insert"@, case, 0);
    match c {
        DnsCommandView::List(d) => {
            lemma_keyword_render("list"@, d);
            lemma_last_field_render(d, env, "domain name"@);
        },
        DnsCommandView::AcmeValidationDelete(d) => {
            lemma_keyword_render("acme-validation-delete"@, d);
            lemma_last_field_render(d, env, "domain name"@);
        },
        DnsCommandView::AcmeValidationSet(d, ch) => {
            lemma_kw_differ("acme-validation-set"@, "acme-challenge-delete"@, case, 5);
            lemma_keyword_render("acme-validation-set"@, d + (" "@ + ch));
            lemma_field_render(d, " "@ + ch, env, "domain name"@);
            lemma_last_field_render(ch, env, "challenge"@);
        },
        DnsCommandView::Insert(d, e) => {
            lemma_keyword_render("insert"@, d + (" "@ + render_entry(e)));
            lemma_field_render(d, " "@ + render_entry(e), env, "domain name"@);
            lemma_entry_round_trip(e, env, case);
        },
        DnsCommandView::Delete(d, e) => {
            lemma_keyword_render("delete"@, d + (" "@ + render_entry(e)));
            lemma_field_render(d, " "@ + render_entry(e), env, "domain name"@);
            lemma_entry_round_trip(e, env, case);
        },
    }
}


/// A command other than a comment whose fields render and read back as
/// themselves.
pub open spec fn valid_command(c: TransipCommandView) -> bool {
    match c {
        TransipCommandView::Comment(_) => false,
        TransipCommandView::Dns(d) => valid_dns(d),
        TransipCommandView::Domain(d) => valid_domain(d),
        TransipCommandView::EmailBox(e) => valid_email(e),
        TransipCommandView::EmailForward(e) => valid_email(e),
        TransipCommandView::Invoice(i) => valid_invoice(i),
        TransipCommandView::Product(p) => valid_product(p),
        TransipCommandView::Vps(v) => valid_vps(v),
        _ => true,
    }
}

/// A line made of keyword `k`, a space and `x`, with `x` ending in a
/// non-whitespace character, is dispatched on `k` with `x` after a space.
proof fn lemma_keyword_line(k: Seq<char>, x: Seq<char>, env: Seq<(Seq<char>, Seq<char>)>, case: CaseRule)
    requires
        is_token(k),
        k.len() >= 3,
        k[0] != '#',
        k[0] != 'a',
        x.len() > 0,
        !is_ws(x.last()),
    ensures
        parse_command(k + (" "@ + x), env, case) == parse_keyword_line(
            k + (" "@ + x),
            k,
            " "@ + x,
            env,
            case,
        ),
{
    let line = k + (" "@ + x);
    reveal_strlit(" ");
    reveal_strlit("ping");
    reveal_strlit("availability-zones");
    assert(line[0] == k[0]);
    assert(line.last() == x.last());
    lemma_rest_trimmed(line);
    lemma_keyword_render(k, x);
    assert(line != "availability-zones"@) by {
        assert("availability-zones"@[0] == 'a');
    }
}

/// A line that starts with `dns` goes to its grammar.
proof fn lemma_dispatch_dns(x: Seq<char>, env: Seq<(Seq<char>, Seq<char>)>, case: CaseRule)
    requires
        x.len() > 0,
        !is_ws(x.last()),
    ensures
        parse_command("dns"@ + (" "@ + x), env, case) == match parse_dns(" "@ + x, env, case) {
            Ok(c) => Ok(TransipCommandView::Dns(c)),
            Err(e) => Err(e),
        },
{
    reveal_strlit("sleep");
    reveal_strlit("onerror");
    reveal_strlit("dns");
    lemma_keyword_line("dns"@, x, env, case);
}

/// A line that starts with `domain` goes to its grammar.
proof fn lemma_dispatch_domain(x: Seq<char>, env: Seq<(Seq<char>, Seq<char>)>, case: CaseRule)
    requires
        x.len() > 0,
        !is_ws(x.last()),
    ensures
        parse_command("domain"@ + (" "@ + x), env, case) == match parse_domain(" "@ + x, env, case) {
            Ok(c) => Ok(TransipCommandView::Domain(c)),
            Err(e) => Err(e),
        },
{
    reveal_strlit("sleep");
    reveal_strlit("onerror");
    reveal_strlit("dns");
    reveal_strlit("domain");
    lemma_keyword_line("domain"@, x, env, case);
}

/// A line that starts with `email-box` goes to its grammar.
proof fn lemma_dispatch_email_box(x: Seq<char>, env: Seq<(Seq<char>, Seq<char>)>, case: CaseRule)
    requires
        x.len() > 0,
        !is_ws(x.last()),
    ensures
        parse_command("email-box"@ + (" "@ + x), env, case) == match parse_email(" "@ + x, env, case) {
            Ok(c) => Ok(TransipCommandView::EmailBox(c)),
            Err(e) => Err(e),
        },
{
    reveal_strlit("sleep");
    reveal_strlit("onerror");
    reveal_strlit("dns");
    reveal_strlit("domain");
    reveal_strlit("email-box");
    lemma_keyword_line("email-box"@, x, env, case);
}

/// A line that starts with `email-forward` goes to its grammar.
proof fn lemma_dispatch_email_forward(x: Seq<char>, env: Seq<(Seq<char>, Seq<char>)>, case: CaseRule)
    requires
        x.len() > 0,
        !is_ws(x.last()),
    ensures
        parse_command("email-forward"@ + (" "@ + x), env, case) == match parse_email(" "@ + x, env, case) {
            Ok(c) => Ok(TransipCommandView::EmailForward(c)),
            Err(e) => Err(e),
        },
{
    reveal_strlit("sleep");
    reveal_strlit("onerror");
    reveal_strlit("dns");
    reveal_strlit("domain");
    reveal_strlit("email-box");
    reveal_strlit("email-forward");
    lemma_keyword_line("email-forward"@, x, env, case);
}

/// A line that starts with `invoice` goes to its grammar.
proof fn lemma_dispatch_invoice(x: Seq<char>, env: Seq<(Seq<char>, Seq<char>)>, case: CaseRule)
    requires
        x.len() > 0,
        !is_ws(x.last()),
    ensures
        parse_command("invoice"@ + (" "@ + x), env, case) == match parse_invoice(" "@ + x, env, case) {
            Ok(c) => Ok(TransipCommandView::Invoice(c)),
            Err(e) => Err(e),
        },
{
    reveal_strlit("sleep");
    reveal_strlit("onerror");
    reveal_strlit("dns");
    reveal_strlit("domain");
    reveal_strlit("email-box");
    reveal_strlit("email-forward");
    reveal_strlit("invoice");
    lemma_keyword_line("invoice"@, x, env, case);
    assert("invoice"@[0] != "onerror"@[0]);
}

/// A line that starts with `product` goes to its grammar.
#[verifier::rlimit(40)]
proof fn lemma_dispatch_product(x: Seq<char>, env: Seq<(Seq<char>, Seq<char>)>, case: CaseRule)
    requires
        x.len() > 0,
        !is_ws(x.last()),
    ensures
        parse_command("product"@ + (" "@ + x), env, case) == match parse_product(" "@ + x, env, case) {
            Ok(c) => Ok(TransipCommandView::Product(c)),
            Err(e) => Err(e),
        },
{
    reveal_strlit("sleep");
    reveal_strlit("onerror");
    reveal_strlit("dns");
    reveal_strlit("domain");
    reveal_strlit("email-box");
    reveal_strlit("email-forward");
    reveal_strlit("invoice");
    reveal_strlit("product");
    lemma_keyword_line("product"@, x, env, case);
    assert("product"@[0] != "onerror"@[0]);
    assert("product"@[0] != "invoice"@[0]);
}

/// A line that starts with `vps` goes to its grammar.
#[verifier::rlimit(40)]
proof fn lemma_dispatch_vps(x: Seq<char>, env: Seq<(Seq<char>, Seq<char>)>, case: CaseRule)
    requires
        x.len() > 0,
        !is_ws(x.last()),
    ensures
        parse_command("vps"@ + (" "@ + x), env, case) == match parse_vps(" "@ + x, env, case) {
            Ok(c) => Ok(TransipCommandView::Vps(c)),
            Err(e) => Err(e),
        },
{
    reveal_strlit("sleep");
    reveal_strlit("onerror");
    reveal_strlit("dns");
    reveal_strlit("domain");
    reveal_strlit("email-box");
    reveal_strlit("email-forward");
    reveal_strlit("invoice");
    reveal_strlit("product");
    reveal_strlit("vps");
    lemma_keyword_line("vps"@, x, env, case);
    assert("vps"@[0] != "dns"@[0]);
}

/// A line that starts with `sleep` reads a number of seconds.
proof fn lemma_dispatch_sleep(x: Seq<char>, env: Seq<(Seq<char>, Seq<char>)>, case: CaseRule)
    requires
        x.len() > 0,
        !is_ws(x.last()),
    ensures
        parse_command("sleep"@ + (" "@ + x), env, case) == parse_sleep(" "@ + x, env),
{
    reveal_strlit("sleep");
    lemma_keyword_line("sleep"@, x, env, case);
}

/// A line that starts with `onerror` reads a mode.
proof fn lemma_dispatch_on_error(x: Seq<char>, env: Seq<(Seq<char>, Seq<char>)>, case: CaseRule)
    requires
        x.len() > 0,
        !is_ws(x.last()),
    ensures
        parse_command("onerror"@ + (" "@ + x), env, case) == parse_on_error(" "@ + x, case),
{
    reveal_strlit("sleep");
    reveal_strlit("onerror");
    lemma_keyword_line("onerror"@, x, env, case);
}

/// The decimal writing of `n`, after a space, reads back as `n`.
proof fn lemma_sleep_round_trip(n: u64, env: Seq<(Seq<char>, Seq<char>)>)
    ensures
        parse_sleep(" "@ + decimal(n as nat), env) == Ok::<_, ErrorView>(TransipCommandView::Sleep(n)),
        decimal(n as nat).len() > 0,
        !is_ws(decimal(n as nat).last()),
{
    lemma_decimal_field(n);
    lemma_last_field_render(decimal(n as nat), env, "seconds"@);
}

/// The keyword of mode `m`, after a space, reads back as `m`.
proof fn lemma_on_error_round_trip(m: OnError, case: CaseRule)
    ensures
        parse_on_error(" "@ + on_error_text(m), case) == Ok::<_, ErrorView>(TransipCommandView::OnError(m)),
        is_token(on_error_text(m)),
{
    reveal_strlit("print");
    reveal_strlit("exit");
    lemma_kw_self(on_error_text(m), case);
    lemma_keyword_last(on_error_text(m));
    assert(on_error_of(on_error_text(m), case) == Some(m));
}

/// Rendering a command (other than a comment) whose fields are valid and
/// parsing the text again gives the command back, whatever the environment
/// and the case rule.
#[verifier::rlimit(40)]
pub proof fn law_round_trip(c: TransipCommandView, env: Seq<(Seq<char>, Seq<char>)>, case: CaseRule)
    requires
        valid_command(c),
    ensures
        parse_command(render_command(c), env, case) == Ok::<_, ErrorView>(c),
{
    match c {
        TransipCommandView::Ping => {
            reveal_strlit("ping");
            lemma_rest_trimmed("ping"@);
        },
        TransipCommandView::AvailabilityZones => {
            reveal_strlit("ping");
            reveal_strlit("availability-zones");
            lemma_rest_trimmed("availability-zones"@);
        },
        TransipCommandView::Sleep(n) => {
            lemma_sleep_round_trip(n, env);
            lemma_dispatch_sleep(decimal(n as nat), env, case);
        },
        TransipCommandView::OnError(m) => {
            lemma_on_error_round_trip(m, case);
            lemma_dispatch_on_error(on_error_text(m), env, case);
        },
        TransipCommandView::Dns(d) => {
            lemma_dns_round_trip(d, env, case);
            lemma_dispatch_dns(render_dns(d), env, case);
        },
        TransipCommandView::Domain(d) => {
            lemma_domain_round_trip(d, env, case);
            lemma_dispatch_domain(render_domain(d), env, case);
        },
        TransipCommandView::EmailBox(e) => {
            lemma_email_round_trip(e, env, case);
            lemma_dispatch_email_box(render_email(e), env, case);
        },
        TransipCommandView::EmailForward(e) => {
            lemma_email_round_trip(e, env, case);
            lemma_dispatch_email_forward(render_email(e), env, case);
        },
        TransipCommandView::Invoice(i) => {
            lemma_invoice_round_trip(i, env, case);
            lemma_dispatch_invoice(render_invoice(i), env, case);
        },
        TransipCommandView::Product(p) => {
            lemma_product_round_trip(p, env, case);
            lemma_dispatch_product(render_product(p), env, case);
        },
        TransipCommandView::Vps(v) => {
            lemma_vps_round_trip(v, env, case);
            lemma_dispatch_vps(render_vps(v), env, case);
        },
        TransipCommandView::Comment(_) => {},
    }
}


/// A token after a space is left over as it is.
proof fn lemma_extra_rest(x: Seq<char>)
    requires
        is_token(x),
    ensures
        rest_of(" "@ + x) == Some(x),
        (" "@ + x).len() > 0,
        (" "@ + x)[0] == ' ',
{
    reveal_strlit(" ");
    lemma_ws_prefix(" "@, x);
    lemma_rest_trimmed(x);
}

proof fn lemma_domain_extra(c: DomainCommandView, x: Seq<char>, env: Seq<(Seq<char>, Seq<char>)>, case: CaseRule)
    requires
        valid_domain(c),
        is_token(x),
    ensures
        parse_domain(" "@ + (render_domain(c) + (" "@ + x)), env, case) == Err::<DomainCommandView, _>(
            ErrorView::TooManyParameters(x),
        ),
{
    reveal_strlit("list");
    reveal_strlit("item");
    lemma_kw_self("list"@, case);
    lemma_kw_self("item"@, case);
    lemma_extra_rest(x);
    match c {
        DomainCommandView::List => lemma_keyword_render("list"@, x),
        DomainCommandView::Item(d) => {
            assert(render_domain(c) + (" "@ + x) =~= "item"@ + (" "@ + (d + (" "@ + x))));
            lemma_keyword_render("item"@, d + (" "@ + x));
            lemma_kw_differ("item"@, "list"@, case, 0);
            lemma_field_render(d, " "@ + x, env, "domain name"@);
        },
    }
}

proof fn lemma_product_extra(c: ProductCommandView, x: Seq<char>, env: Seq<(Seq<char>, Seq<char>)>, case: CaseRule)
    requires
        valid_product(c),
        is_token(x),
    ensures
        parse_product(" "@ + (render_product(c) + (" "@ + x)), env, case) == Err::<ProductCommandView, _>(
            ErrorView::TooManyParameters(x),
        ),
{
    reveal_strlit("list");
    reveal_strlit("elements");
    lemma_kw_self("list"@, case);
    lemma_kw_self("elements"@, case);
    lemma_extra_rest(x);
    match c {
        ProductCommandView::List => lemma_keyword_render("list"@, x),
        ProductCommandView::Elements(p) => {
            assert(render_product(c) + (" "@ + x) =~= "elements"@ + (" "@ + (p + (" "@ + x))));
            lemma_keyword_render("elements"@, p + (" "@ + x));
            lemma_field_render(p, " "@ + x, env, "product name"@);
        },
    }
}

proof fn lemma_invoice_extra(c: InvoiceCommandView, x: Seq<char>, env: Seq<(Seq<char>, Seq<char>)>, case: CaseRule)
    requires
        valid_invoice(c),
        is_token(x),
    ensures
        parse_invoice(" "@ + (render_invoice(c) + (" "@ + x)), env, case) == Err::<InvoiceCommandView, _>(
            ErrorView::TooManyParameters(x),
        ),
{
    reveal_strlit("list");
    lemma_kw_self("list"@, case);
    lemma_extra_rest(x);
    match c {
        InvoiceCommandView::List => lemma_keyword_render("list"@, x),
        InvoiceCommandView::Action(n, a) => {
            let k = invoice_action_text(a);
            assert(render_invoice(c) + (" "@ + x) =~= k + (" "@ + (n + (" "@ + x))));
            lemma_invoice_action(a, case);
            lemma_keyword_render(k, n + (" "@ + x));
            lemma_field_render(n, " "@ + x, env, "invoice number"@);
        },
    }
}

proof fn lemma_vps_extra(c: VpsCommandView, x: Seq<char>, env: Seq<(Seq<char>, Seq<char>)>, case: CaseRule)
    requires
        valid_vps(c),
        is_token(x),
    ensures
        parse_vps(" "@ + (render_vps(c) + (" "@ + x)), env, case) == Err::<VpsCommandView, _>(
            ErrorView::TooManyParameters(x),
        ),
{
    reveal_strlit("list");
    lemma_kw_self("list"@, case);
    lemma_extra_rest(x);
    match c {
        VpsCommandView::List => lemma_keyword_render("list"@, x),
        VpsCommandView::Action(n, a) => {
            let k = vps_action_text(a);
            assert(render_vps(c) + (" "@ + x) =~= k + (" "@ + (n + (" "@ + x))));
            lemma_vps_action(a, case);
            lemma_keyword_render(k, n + (" "@ + x));
            lemma_field_render(n, " "@ + x, env, "vps name"@);
        },
    }
}

#[verifier::rlimit(40)]
proof fn lemma_email_extra(c: EmailCommandView, x: Seq<char>, env: Seq<(Seq<char>, Seq<char>)>, case: CaseRule)
    requires
        valid_email(c),
        is_token(x),
    ensures
        parse_email(" "@ + (render_email(c) + (" "@ + x)), env, case) == Err::<EmailCommandView, _>(
            ErrorView::TooManyParameters(x),
        ),
{
    reveal_strlit(" ");
    reveal_strlit("list");
    reveal_strlit("item");
    reveal_strlit("delete");
    reveal_strlit("insert");
    reveal_strlit("update");
    lemma_kw_self("list"@, case);
    lemma_kw_self("item"@, case);
    lemma_kw_self("delete"@, case);
    lemma_kw_self("insert"@, case);
    lemma_kw_self("update"@, case);
    lemma_kw_differ("item"@, "list"@, case, 0);
    lemma_kw_differ("delete"@, "insert"@, case, 0);
    lemma_kw_differ("update"@, "insert"@, case, 0);
    lemma_kw_differ("update"@, "delete"@, case, 0);
    lemma_extra_rest(x);
    let t = " "@ + x;
    match c {
        EmailCommandView::List(d) => {
            assert(render_email(c) + t =~= "list"@ + (" "@ + (d + t)));
            lemma_keyword_render("list"@, d + t);
            lemma_field_render(d, t, env, "domain name"@);
        },
        EmailCommandView::Insert(d, v) => {
            assert(render_email(c) + t =~= "insert"@ + (" "@ + (d + (" "@ + (v + t)))));
            lemma_keyword_render("insert"@, d + (" "@ + (v + t)));
            lemma_field_render(d, " "@ + (v + t), env, "domain name"@);
            lemma_field_render(v, t, env, "value"@);
        },
        EmailCommandView::Item(d, i) => {
            assert(render_email(c) + t =~= "item"@ + (" "@ + (d + (" "@ + (i + t)))));
            lemma_keyword_render("item"@, d + (" "@ + (i + t)));
            lemma_field_render(d, " "@ + (i + t), env, "domain name"@);
            lemma_field_render(i, t, env, "id"@);
        },
        EmailCommandView::Delete(d, i) => {
            assert(render_email(c) + t =~= "delete"@ + (" "@ + (d + (" "@ + (i + t)))));
            lemma_keyword_render("delete"@, d + (" "@ + (i + t)));
            lemma_field_render(d, " "@ + (i + t), env, "domain name"@);
            lemma_field_render(i, t, env, "id"@);
        },
        EmailCommandView::Update(d, i, v) => {
            assert(render_email(c) + t =~= "update"@ + (" "@ + (d + (" "@ + (i + (" "@ + (v
                + t)))))));
            lemma_keyword_render("update"@, d + (" "@ + (i + (" "@ + (v + t)))));
            lemma_field_render(d, " "@ + (i + (" "@ + (v + t))), env, "domain name"@);
            lemma_field_render(i, " "@ + (v + t), env, "id"@);
            lemma_field_render(v, t, env, "value"@);
        },
    }
}

/// A `dns` sub-command whose last field is not the rest of the line.
pub open spec fn dns_fixed_arity(c: DnsCommandView) -> bool {
    !(c is Insert) && !(c is Delete)
}

#[verifier::rlimit(40)]
proof fn lemma_dns_extra(c: DnsCommandView, x: Seq<char>, env: Seq<(Seq<char>, Seq<char>)>, case: CaseRule)
    requires
        valid_dns(c),
        dns_fixed_arity(c),
        is_token(x),
    ensures
        parse_dns(" "@ + (render_dns(c) + (" "@ + x)), env, case) == Err::<DnsCommandView, _>(
            ErrorView::TooManyParameters(x),
        ),
{
    reveal_strlit(" ");
    reveal_strlit("list");
    reveal_strlit("insert");
    reveal_strlit("delete");
    reveal_strlit("acme-validation-delete");
    reveal_strlit("acme-challenge-delete");
    reveal_strlit("acme-validation-set");
    reveal_strlit("acme-challenge-set");
    lemma_kw_self("list"@, case);
    lemma_kw_self("acme-validation-delete"@, case);
    lemma_kw_self("acme-validation-set"@, case);
    lemma_extra_rest(x);
    let t = " "@ + x;
    match c {
        DnsCommandView::List(d) => {
            assert(render_dns(c) + t =~= "list"@ + (" "@ + (d + t)));
            lemma_keyword_render("list"@, d + t);
            lemma_field_render(d, t, env, "domain name"@);
        },
        DnsCommandView::AcmeValidationDelete(d) => {
            assert(render_dns(c) + t =~= "acme-validation-delete"@ + (" "@ + (d + t)));
            lemma_keyword_render("acme-validation-delete"@, d + t);
            lemma_field_render(d, t, env, "domain name"@);
        },
        DnsCommandView::AcmeValidationSet(d, ch) => {
            assert(render_dns(c) + t =~= "acme-validation-set"@ + (" "@ + (d + (" "@ + (ch + t)))));
            lemma_keyword_render("acme-validation-set"@, d + (" "@ + (ch + t)));
            lemma_field_render(d, " "@ + (ch + t), env, "domain name"@);
            lemma_field_render(ch, t, env, "challenge"@);
        },
        _ => {},
    }
}


/// A command whose verb takes a fixed number of fields, none of them the
/// rest of the line.
pub open spec fn fixed_arity(c: TransipCommandView) -> bool {
    match c {
        TransipCommandView::Comment(_) => false,
        TransipCommandView::Ping => false,
        TransipCommandView::AvailabilityZones => false,
        TransipCommandView::Dns(d) => dns_fixed_arity(d),
        _ => true,
    }
}

proof fn lemma_extra_token_dns(d: DnsCommandView, x: Seq<char>, env: Seq<(Seq<char>, Seq<char>)>, case: CaseRule)
    requires
        valid_dns(d) && dns_fixed_arity(d),
        is_token(x),
    ensures
        parse_command(render_command(TransipCommandView::Dns(d)) + (" "@ + x), env, case) == Err::<
            TransipCommandView,
            _,
        >(ErrorView::TooManyParameters(x)),
{
    let t = " "@ + x;
    let r = render_dns(d);
    assert(render_command(TransipCommandView::Dns(d)) + t =~= "dns"@ + (" "@ + (r + t)));
    assert((r + t).last() == x.last());
    lemma_dns_extra(d, x, env, case);
    lemma_dispatch_dns(r + t, env, case);
}

proof fn lemma_extra_token_domain(d: DomainCommandView, x: Seq<char>, env: Seq<(Seq<char>, Seq<char>)>, case: CaseRule)
    requires
        valid_domain(d),
        is_token(x),
    ensures
        parse_command(render_command(TransipCommandView::Domain(d)) + (" "@ + x), env, case) == Err::<
            TransipCommandView,
            _,
        >(ErrorView::TooManyParameters(x)),
{
    let t = " "@ + x;
    let r = render_domain(d);
    assert(render_command(TransipCommandView::Domain(d)) + t =~= "domain"@ + (" "@ + (r + t)));
    assert((r + t).last() == x.last());
    lemma_domain_extra(d, x, env, case);
    lemma_dispatch_domain(r + t, env, case);
}

proof fn lemma_extra_token_email_box(e: EmailCommandView, x: Seq<char>, env: Seq<(Seq<char>, Seq<char>)>, case: CaseRule)
    requires
        valid_email(e),
        is_token(x),
    ensures
        parse_command(render_command(TransipCommandView::EmailBox(e)) + (" "@ + x), env, case) == Err::<
            TransipCommandView,
            _,
        >(ErrorView::TooManyParameters(x)),
{
    let t = " "@ + x;
    let r = render_email(e);
    assert(render_command(TransipCommandView::EmailBox(e)) + t =~= "email-box"@ + (" "@ + (r + t)));
    assert((r + t).last() == x.last());
    lemma_email_extra(e, x, env, case);
    lemma_dispatch_email_box(r + t, env, case);
}

proof fn lemma_extra_token_email_forward(e: EmailCommandView, x: Seq<char>, env: Seq<(Seq<char>, Seq<char>)>, case: CaseRule)
    requires
        valid_email(e),
        is_token(x),
    ensures
        parse_command(render_command(TransipCommandView::EmailForward(e)) + (" "@ + x), env, case) == Err::<
            TransipCommandView,
            _,
        >(ErrorView::TooManyParameters(x)),
{
    let t = " "@ + x;
    let r = render_email(e);
    assert(render_command(TransipCommandView::EmailForward(e)) + t =~= "email-forward"@ + (" "@ + (r + t)));
    assert((r + t).last() == x.last());
    lemma_email_extra(e, x, env, case);
    lemma_dispatch_email_forward(r + t, env, case);
}

proof fn lemma_extra_token_invoice(i: InvoiceCommandView, x: Seq<char>, env: Seq<(Seq<char>, Seq<char>)>, case: CaseRule)
    requires
        valid_invoice(i),
        is_token(x),
    ensures
        parse_command(render_command(TransipCommandView::Invoice(i)) + (" "@ + x), env, case) == Err::<
            TransipCommandView,
            _,
        >(ErrorView::TooManyParameters(x)),
{
    let t = " "@ + x;
    let r = render_invoice(i);
    assert(render_command(TransipCommandView::Invoice(i)) + t =~= "invoice"@ + (" "@ + (r + t)));
    assert((r + t).last() == x.last());
    lemma_invoice_extra(i, x, env, case);
    lemma_dispatch_invoice(r + t, env, case);
}

proof fn lemma_extra_token_product(p: ProductCommandView, x: Seq<char>, env: Seq<(Seq<char>, Seq<char>)>, case: CaseRule)
    requires
        valid_product(p),
        is_token(x),
    ensures
        parse_command(render_command(TransipCommandView::Product(p)) + (" "@ + x), env, case) == Err::<
            TransipCommandView,
            _,
        >(ErrorView::TooManyParameters(x)),
{
    let t = " "@ + x;
    let r = render_product(p);
    assert(render_command(TransipCommandView::Product(p)) + t =~= "product"@ + (" "@ + (r + t)));
    assert((r + t).last() == x.last());
    lemma_product_extra(p, x, env, case);
    lemma_dispatch_product(r + t, env, case);
}

proof fn lemma_extra_token_vps(v: VpsCommandView, x: Seq<char>, env: Seq<(Seq<char>, Seq<char>)>, case: CaseRule)
    requires
        valid_vps(v),
        is_token(x),
    ensures
        parse_command(render_command(TransipCommandView::Vps(v)) + (" "@ + x), env, case) == Err::<
            TransipCommandView,
            _,
        >(ErrorView::TooManyParameters(x)),
{
    let t = " "@ + x;
    let r = render_vps(v);
    assert(render_command(TransipCommandView::Vps(v)) + t =~= "vps"@ + (" "@ + (r + t)));
    assert((r + t).last() == x.last());
    lemma_vps_extra(v, x, env, case);
    lemma_dispatch_vps(r + t, env, case);
}

proof fn lemma_extra_token_sleep(n: u64, x: Seq<char>, env: Seq<(Seq<char>, Seq<char>)>, case: CaseRule)
    requires
        is_token(x),
    ensures
        parse_command(render_command(TransipCommandView::Sleep(n)) + (" "@ + x), env, case) == Err::<
            TransipCommandView,
            _,
        >(ErrorView::TooManyParameters(x)),
{
    let t = " "@ + x;
    let d = decimal(n as nat);
    lemma_extra_rest(x);
    assert(render_command(TransipCommandView::Sleep(n)) + t =~= "sleep"@ + (" "@ + (d + t)));
    assert((d + t).last() == x.last());
    lemma_decimal_field(n);
    lemma_field_render(d, t, env, "seconds"@);
    lemma_dispatch_sleep(d + t, env, case);
}

proof fn lemma_extra_token_on_error(m: OnError, x: Seq<char>, env: Seq<(Seq<char>, Seq<char>)>, case: CaseRule)
    requires
        is_token(x),
    ensures
        parse_command(render_command(TransipCommandView::OnError(m)) + (" "@ + x), env, case) == Err::<
            TransipCommandView,
            _,
        >(ErrorView::TooManyParameters(x)),
{
    let t = " "@ + x;
    let k = on_error_text(m);
    lemma_extra_rest(x);
    assert(render_command(TransipCommandView::OnError(m)) + t =~= "onerror"@ + (" "@ + (k + t)));
    assert((k + t).last() == x.last());
    lemma_on_error_round_trip(m, case);
    lemma_keyword_render(k, x);
    lemma_dispatch_on_error(k + t, env, case);
}

/// One token more than a verb takes is refused with `TooManyParameters`,
/// which holds the extra token.
#[verifier::rlimit(40)]
pub proof fn law_extra_token(
    c: TransipCommandView,
    x: Seq<char>,
    env: Seq<(Seq<char>, Seq<char>)>,
    case: CaseRule,
)
    requires
        valid_command(c),
        fixed_arity(c),
        is_token(x),
    ensures
        parse_command(render_command(c) + (" "@ + x), env, case) == Err::<TransipCommandView, _>(
            ErrorView::TooManyParameters(x),
        ),
{
    match c {
        TransipCommandView::Sleep(n) => lemma_extra_token_sleep(n, x, env, case),
        TransipCommandView::OnError(m) => lemma_extra_token_on_error(m, x, env, case),
        TransipCommandView::Dns(d) => lemma_extra_token_dns(d, x, env, case),
        TransipCommandView::Domain(d) => lemma_extra_token_domain(d, x, env, case),
        TransipCommandView::EmailBox(e) => lemma_extra_token_email_box(e, x, env, case),
        TransipCommandView::EmailForward(e) => lemma_extra_token_email_forward(e, x, env, case),
        TransipCommandView::Invoice(i) => lemma_extra_token_invoice(i, x, env, case),
        TransipCommandView::Product(p) => lemma_extra_token_product(p, x, env, case),
        TransipCommandView::Vps(v) => lemma_extra_token_vps(v, x, env, case),
        _ => {},
    }
}

/// The text of a `domain` sub-command without its last field, and the
/// name of that field.
pub open spec fn domain_without_last(c: DomainCommandView) -> Option<(Seq<char>, Seq<char>)> {
    match c {
        DomainCommandView::List => None,
        DomainCommandView::Item(_) => Some(("item"@, "domain name"@)),
    }
}

/// The text of a `product` sub-command without its last field, and the
/// name of that field.
pub open spec fn product_without_last(c: ProductCommandView) -> Option<(Seq<char>, Seq<char>)> {
    match c {
        ProductCommandView::List => None,
        ProductCommandView::Elements(_) => Some(("elements"@, "product name"@)),
    }
}

/// The text of an `invoice` sub-command without its last field, and the
/// name of that field.
pub open spec fn invoice_without_last(c: InvoiceCommandView) -> Option<(Seq<char>, Seq<char>)> {
    match c {
        InvoiceCommandView::List => None,
        InvoiceCommandView::Action(_, a) => Some((invoice_action_text(a), "invoice number"@)),
    }
}

/// The text of a `vps` sub-command without its last field, and the name
/// of that field.
pub open spec fn vps_without_last(c: VpsCommandView) -> Option<(Seq<char>, Seq<char>)> {
    match c {
        VpsCommandView::List => None,
        VpsCommandView::Action(_, a) => Some((vps_action_text(a), "vps name"@)),
    }
}

/// The text of an e-mail sub-command without its last field, and the name
/// of that field.
pub open spec fn email_without_last(c: EmailCommandView) -> Option<(Seq<char>, Seq<char>)> {
    match c {
        EmailCommandView::List(_) => Some(("list"@, "domain name"@)),
        EmailCommandView::Item(d, _) => Some(("item"@ + (" "@ + d), "id"@)),
        EmailCommandView::Delete(d, _) => Some(("delete"@ + (" "@ + d), "id"@)),
        EmailCommandView::Insert(d, _) => Some(("insert"@ + (" "@ + d), "value"@)),
        EmailCommandView::Update(d, i, _) => Some(("update"@ + (" "@ + (d + (" "@ + i))), "value"@)),
    }
}

/// The text of a fixed-arity `dns` sub-command without its last field, and
/// the name of that field.
pub open spec fn dns_without_last(c: DnsCommandView) -> Option<(Seq<char>, Seq<char>)> {
    match c {
        DnsCommandView::List(_) => Some(("list"@, "domain name"@)),
        DnsCommandView::AcmeValidationDelete(_) => Some(("acme-validation-delete"@, "domain name"@)),
        DnsCommandView::AcmeValidationSet(d, _) => Some(
            ("acme-validation-set"@ + (" "@ + d), "challenge"@),
        ),
        _ => None,
    }
}

/// `k`, a space and the text of `p`, with the name of `p`.
pub open spec fn under(k: Seq<char>, p: Option<(Seq<char>, Seq<char>)>) -> Option<
    (Seq<char>, Seq<char>),
> {
    match p {
        Some(q) => Some((k + (" "@ + q.0), q.1)),
        None => None,
    }
}

/// The text of a fixed-arity command without its last field, and the name
/// of that field; `None` for a command without fields.
pub open spec fn without_last_field(c: TransipCommandView) -> Option<(Seq<char>, Seq<char>)> {
    match c {
        TransipCommandView::Sleep(_) => Some(("sleep"@, "seconds"@)),
        TransipCommandView::OnError(_) => Some(("onerror"@, "mode"@)),
        TransipCommandView::Dns(d) => under("dns"@, dns_without_last(d)),
        TransipCommandView::Domain(d) => under("domain"@, domain_without_last(d)),
        TransipCommandView::EmailBox(e) => under("email-box"@, email_without_last(e)),
        TransipCommandView::EmailForward(e) => under("email-forward"@, email_without_last(e)),
        TransipCommandView::Invoice(i) => under("invoice"@, invoice_without_last(i)),
        TransipCommandView::Product(p) => under("product"@, product_without_last(p)),
        TransipCommandView::Vps(v) => under("vps"@, vps_without_last(v)),
        _ => None,
    }
}

proof fn lemma_domain_short(c: DomainCommandView, env: Seq<(Seq<char>, Seq<char>)>, case: CaseRule)
    requires
        domain_without_last(c) matches Some(p),
    ensures
        domain_without_last(c) matches Some(p) && parse_domain(" "@ + p.0, env, case) == Err::<
            DomainCommandView,
            _,
        >(ErrorView::MissingRequiredField(p.1)) && p.0.len() > 0 && !is_ws(p.0.last()),
{
    reveal_strlit("list");
    reveal_strlit("item");
    lemma_kw_self("item"@, case);
    lemma_kw_differ("item"@, "list"@, case, 0);
    lemma_keyword_last("item"@);
}

proof fn lemma_product_short(c: ProductCommandView, env: Seq<(Seq<char>, Seq<char>)>, case: CaseRule)
    requires
        product_without_last(c) matches Some(p),
    ensures
        product_without_last(c) matches Some(p) && parse_product(" "@ + p.0, env, case) == Err::<
            ProductCommandView,
            _,
        >(ErrorView::MissingRequiredField(p.1)) && p.0.len() > 0 && !is_ws(p.0.last()),
{
    reveal_strlit("list");
    reveal_strlit("elements");
    lemma_kw_self("elements"@, case);
    lemma_keyword_last("elements"@);
}

proof fn lemma_invoice_short(c: InvoiceCommandView, env: Seq<(Seq<char>, Seq<char>)>, case: CaseRule)
    requires
        invoice_without_last(c) matches Some(p),
    ensures
        invoice_without_last(c) matches Some(p) && parse_invoice(" "@ + p.0, env, case) == Err::<
            InvoiceCommandView,
            _,
        >(ErrorView::MissingRequiredField(p.1)) && p.0.len() > 0 && !is_ws(p.0.last()),
{
    match c {
        InvoiceCommandView::Action(_, a) => {
            lemma_invoice_action(a, case);
            lemma_keyword_last(invoice_action_text(a));
        },
        _ => {},
    }
}

proof fn lemma_vps_short(c: VpsCommandView, env: Seq<(Seq<char>, Seq<char>)>, case: CaseRule)
    requires
        vps_without_last(c) matches Some(p),
    ensures
        vps_without_last(c) matches Some(p) && parse_vps(" "@ + p.0, env, case) == Err::<
            VpsCommandView,
            _,
        >(ErrorView::MissingRequiredField(p.1)) && p.0.len() > 0 && !is_ws(p.0.last()),
{
    match c {
        VpsCommandView::Action(_, a) => {
            lemma_vps_action(a, case);
            lemma_keyword_last(vps_action_text(a));
        },
        _ => {},
    }
}

#[verifier::rlimit(40)]
proof fn lemma_email_short(c: EmailCommandView, env: Seq<(Seq<char>, Seq<char>)>, case: CaseRule)
    requires
        valid_email(c),
    ensures
        email_without_last(c) matches Some(p) && parse_email(" "@ + p.0, env, case) == Err::<
            EmailCommandView,
            _,
        >(ErrorView::MissingRequiredField(p.1)) && p.0.len() > 0 && !is_ws(p.0.last()),
{
    reveal_strlit(" ");
    reveal_strlit("list");
    reveal_strlit("item");
    reveal_strlit("delete");
    reveal_strlit("insert");
    reveal_strlit("update");
    lemma_kw_self("list"@, case);
    lemma_kw_self("item"@, case);
    lemma_kw_self("delete"@, case);
    lemma_kw_self("insert"@, case);
    lemma_kw_self("update"@, case);
    lemma_kw_differ("item"@, "list"@, case, 0);
    lemma_kw_differ("delete"@, "insert"@, case, 0);
    lemma_kw_differ("update"@, "insert"@, case, 0);
    lemma_kw_differ("update"@, "delete"@, case, 0);
    crate::words::lemma_rest_empty();
    match c {
        EmailCommandView::List(_) => lemma_keyword_last("list"@),
        EmailCommandView::Item(d, _) => {
            lemma_keyword_render("item"@, d);
            lemma_last_field_render(d, env, "domain name"@);
        },
        EmailCommandView::Delete(d, _) => {
            lemma_keyword_render("delete"@, d);
            lemma_last_field_render(d, env, "domain name"@);
        },
        EmailCommandView::Insert(d, _) => {
            lemma_keyword_render("insert"@, d);
            lemma_last_field_render(d, env, "domain name"@);
        },
        EmailCommandView::Update(d, i, _) => {
            lemma_keyword_render("update"@, d + (" "@ + i));
            lemma_field_render(d, " "@ + i, env, "domain name"@);
            lemma_last_field_render(i, env, "id"@);
        },
    }
}

#[verifier::rlimit(40)]
proof fn lemma_dns_short(c: DnsCommandView, env: Seq<(Seq<char>, Seq<char>)>, case: CaseRule)
    requires
        valid_dns(c),
        dns_without_last(c) matches Some(p),
    ensures
        dns_without_last(c) matches Some(p) && parse_dns(" "@ + p.0, env, case) == Err::<
            DnsCommandView,
            _,
        >(ErrorView::MissingRequiredField(p.1)) && p.0.len() > 0 && !is_ws(p.0.last()),
{
    reveal_strlit(" ");
    reveal_strlit("list");
    reveal_strlit("insert");
    reveal_strlit("delete");
    reveal_strlit("acme-validation-delete");
    reveal_strlit("acme-challenge-delete");
    reveal_strlit("acme-validation-set");
    reveal_strlit("acme-challenge-set");
    lemma_kw_self("list"@, case);
    lemma_kw_self("acme-validation-delete"@, case);
    lemma_kw_self("acme-validation-set"@, case);
    crate::words::lemma_rest_empty();
    match c {
        DnsCommandView::List(_) => lemma_keyword_last("list"@),
        DnsCommandView::AcmeValidationDelete(_) => lemma_keyword_last("acme-validation-delete"@),
        DnsCommandView::AcmeValidationSet(d, _) => {
            lemma_keyword_render("acme-validation-set"@, d);
            lemma_last_field_render(d, env, "domain name"@);
        },
        _ => {},
    }
}


/// A keyword alone on a line is dispatched on with nothing after it.
proof fn lemma_bare_keyword(k: Seq<char>, env: Seq<(Seq<char>, Seq<char>)>, case: CaseRule)
    requires
        is_token(k),
        k.len() >= 5,
        k[0] != '#',
        k[0] != 'a',
    ensures
        parse_command(k, env, case) == parse_keyword_line(k, k, Seq::<char>::empty(), env, case),
{
    reveal_strlit("ping");
    reveal_strlit("availability-zones");
    lemma_rest_trimmed(k);
    lemma_keyword_last(k);
    assert(k != "availability-zones"@) by {
        assert("availability-zones"@[0] == 'a');
    }
}

/// One token fewer than a verb takes is refused with
/// `MissingRequiredField`, which names the field that is missing.
#[verifier::rlimit(40)]
pub proof fn law_missing_field(c: TransipCommandView, env: Seq<(Seq<char>, Seq<char>)>, case: CaseRule)
    requires
        valid_command(c),
        without_last_field(c) is Some,
    ensures
        without_last_field(c) matches Some(p) && parse_command(p.0, env, case) == Err::<
            TransipCommandView,
            _,
        >(ErrorView::MissingRequiredField(p.1)),
{
    crate::words::lemma_rest_empty();
    match c {
        TransipCommandView::Sleep(_) => {
            reveal_strlit("sleep");
            lemma_bare_keyword("sleep"@, env, case);
        },
        TransipCommandView::OnError(_) => {
            reveal_strlit("sleep");
            reveal_strlit("onerror");
            lemma_bare_keyword("onerror"@, env, case);
        },
        TransipCommandView::Dns(d) => {
            lemma_dns_short(d, env, case);
            let q = dns_without_last(d)->0;
            lemma_dispatch_dns(q.0, env, case);
        },
        TransipCommandView::Domain(d) => {
            lemma_domain_short(d, env, case);
            let q = domain_without_last(d)->0;
            lemma_dispatch_domain(q.0, env, case);
        },
        TransipCommandView::EmailBox(e) => {
            lemma_email_short(e, env, case);
            let q = email_without_last(e)->0;
            lemma_dispatch_email_box(q.0, env, case);
        },
        TransipCommandView::EmailForward(e) => {
            lemma_email_short(e, env, case);
            let q = email_without_last(e)->0;
            lemma_dispatch_email_forward(q.0, env, case);
        },
        TransipCommandView::Invoice(i) => {
            lemma_invoice_short(i, env, case);
            let q = invoice_without_last(i)->0;
            lemma_dispatch_invoice(q.0, env, case);
        },
        TransipCommandView::Product(p) => {
            lemma_product_short(p, env, case);
            let q = product_without_last(p)->0;
            lemma_dispatch_product(q.0, env, case);
        },
        TransipCommandView::Vps(v) => {
            lemma_vps_short(v, env, case);
            let q = vps_without_last(v)->0;
            lemma_dispatch_vps(q.0, env, case);
        },
        _ => {},
    }
}

} // verus!
