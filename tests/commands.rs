use transip_command::{
    CaseRule, DnsCommand, DomainCommand, EmailCommand, Environment, Error, FileLinesBuilder,
    InvoiceAction, InvoiceCommand, OnError, ProductCommand, TTYLinesBuilder, TransipCommand,
    VpsAction, VpsCommand,
};

fn parse(line: &str) -> Result<TransipCommand, Error> {
    TransipCommand::parse(line, &Environment::new(), CaseRule::Exact)
}

#[test]
fn lib_display() {
    assert_eq!(
        TransipCommand::Comment("# lksadjf".to_owned()).to_string(),
        "# lksadjf".to_owned(),
    );

    assert_eq!(
        TransipCommand::Dns(DnsCommand::List("paulmin.nl".to_owned())).to_string(),
        "dns list paulmin.nl".to_owned(),
    );

    assert_eq!(
        TransipCommand::Domain(DomainCommand::List).to_string(),
        "domain list".to_owned(),
    );

    assert_eq!(
        TransipCommand::Invoice(InvoiceCommand::List).to_string(),
        "invoice list".to_owned(),
    );

    assert_eq!(
        TransipCommand::Product(ProductCommand::List).to_string(),
        "product list".to_owned(),
    );

    assert_eq!(
        TransipCommand::OnError(OnError::Exit).to_string(),
        "onerror exit".to_owned(),
    );

    assert_eq!(
        TransipCommand::OnError(OnError::Print).to_string(),
        "onerror print".to_owned(),
    );

    assert_eq!(TransipCommand::Sleep(45).to_string(), "sleep 45".to_owned(),);

    assert_eq!(TransipCommand::Ping.to_string(), "ping".to_owned(),);

    assert_eq!(
        TransipCommand::AvailabilityZones.to_string(),
        "availability-zones".to_owned()
    );
}

#[test]
fn transip_command_from_str() {
    assert_eq!(
        parse("# alsjff").unwrap(),
        TransipCommand::Comment("# alsjff".to_owned()),
    );

    assert_eq!(
        parse("dns list paulmin.nl ").unwrap(),
        TransipCommand::Dns(DnsCommand::List("paulmin.nl".to_owned()))
    );

    assert_eq!(
        parse("vps \treset paulusminus-vps2").unwrap(),
        TransipCommand::Vps(VpsCommand::Action(
            "paulusminus-vps2".to_owned(),
            VpsAction::Reset,
        ))
    );

    assert_eq!(parse("sleep 3984").unwrap(), TransipCommand::Sleep(3984),);

    assert_eq!(
        parse("onerror print  ").unwrap(),
        TransipCommand::OnError(OnError::Print),
    );

    assert_eq!(
        parse("onerror   exit").unwrap(),
        TransipCommand::OnError(OnError::Exit),
    );

    assert_eq!(parse(" ping ").unwrap(), TransipCommand::Ping,);

    assert_eq!(
        parse("availability-zones ").unwrap(),
        TransipCommand::AvailabilityZones,
    );

    assert_eq!(
        parse("availibility-zones "),
        Err(Error::UnparseableLine("availibility-zones ".to_owned())),
    );
}

#[test]
fn comment() {
    let commandline = "# lkasjkfiekf";
    assert_eq!(
        parse(commandline).unwrap(),
        TransipCommand::Comment(commandline.to_owned()),
    );
}

#[test]
fn domain_command_list() {
    assert_eq!(
        parse("domain list").unwrap(),
        TransipCommand::Domain(DomainCommand::List),
    )
}

#[test]
fn domain_command_item() {
    assert_eq!(
        parse("domain item lkdkf").unwrap(),
        TransipCommand::Domain(DomainCommand::Item("lkdkf".to_owned()))
    );
}

#[test]
fn dns_command_list() {
    assert_eq!(
        parse("dns list lkadjf ").unwrap(),
        TransipCommand::Dns(DnsCommand::List("lkadjf".to_owned())),
    );
}

#[test]
fn dns_acme_challenge_delete() {
    assert_eq!(
        parse("dns acme-challenge-delete lkdfjf").unwrap(),
        TransipCommand::Dns(DnsCommand::AcmeValidationDelete("lkdfjf".to_owned())),
    );
}

#[test]
fn dns_acme_challenge_set() {
    assert_eq!(
        parse("dns acme-challenge-set paulmin.nl (83jgljfg").unwrap(),
        TransipCommand::Dns(DnsCommand::AcmeValidationSet(
            "paulmin.nl".to_owned(),
            "(83jgljfg".to_owned()
        ))
    );
}

#[test]
fn vps_command_list() {
    assert_eq!(parse("vps list").unwrap(), TransipCommand::Vps(VpsCommand::List,));
}

#[test]
fn vps_command_item() {
    assert_eq!(
        parse("vps item iuerit").unwrap(),
        TransipCommand::Vps(VpsCommand::Action("iuerit".to_owned(), VpsAction::Item))
    );
}

#[test]
fn invoice_command_list() {
    assert_eq!(
        parse("invoice list").unwrap(),
        TransipCommand::Invoice(InvoiceCommand::List,)
    );
}

#[test]
fn invoice_command_item() {
    assert_eq!(
        parse("invoice item 38374").unwrap(),
        TransipCommand::Invoice(InvoiceCommand::Action("38374".to_owned(), InvoiceAction::Item))
    );
}

#[test]
fn product_command_list() {
    assert_eq!(
        parse("product list").unwrap(),
        TransipCommand::Product(ProductCommand::List),
    );
}

#[test]
fn product_elements() {
    assert_eq!(
        parse("product elements 37465").unwrap(),
        TransipCommand::Product(ProductCommand::Elements("37465".to_owned())),
    );
}

#[test]
fn environment_substitution() {
    let mut env = Environment::new();
    env.set("CERTBOT_DOMAIN", "example.com");
    env.set("CERTBOT_VALIDATION", "abc123");
    assert_eq!(
        TransipCommand::parse(
            "dns acme-validation-set ${CERTBOT_DOMAIN} ${CERTBOT_VALIDATION}",
            &env,
            CaseRule::Exact,
        ),
        Ok(TransipCommand::Dns(DnsCommand::AcmeValidationSet(
            "example.com".to_owned(),
            "abc123".to_owned()
        ))),
    );
}

#[test]
fn unset_variable() {
    assert_eq!(
        parse("domain item ${FOO}"),
        Err(Error::EnvironmentVariableMissing("FOO".to_owned())),
    );
}

#[test]
fn malformed_placeholder() {
    let mut env = Environment::new();
    env.set("SPACED", "a b");
    env.set("EMPTY", "");
    env.set("SPF", "v=spf1 ~all");
    let parse_in = |line: &str| TransipCommand::parse(line, &env, CaseRule::Exact);
    assert_eq!(
        parse_in("domain item ${SPACED}"),
        Err(Error::MalformedPlaceholder("${SPACED}".to_owned())),
    );
    assert_eq!(
        parse_in("domain item ${EMPTY}"),
        Err(Error::MalformedPlaceholder("${EMPTY}".to_owned())),
    );
    assert_eq!(
        parse_in("dns insert a.nl @ 60 TXT ${SPF}").map(|c| c.to_string()),
        Ok("dns insert a.nl @ 60 TXT v=spf1 ~all".to_owned()),
    );
}

#[test]
fn placeholder_shapes_pass_through() {
    assert_eq!(
        parse("domain item ${foo}"),
        Ok(TransipCommand::Domain(DomainCommand::Item("${foo}".to_owned()))),
    );
    assert_eq!(
        parse("domain item ${}"),
        Ok(TransipCommand::Domain(DomainCommand::Item("${}".to_owned()))),
    );
    assert_eq!(
        parse("domain item a${FOO}"),
        Ok(TransipCommand::Domain(DomainCommand::Item("a${FOO}".to_owned()))),
    );
    assert_eq!(
        parse("domain item ${foo} x"),
        Err(Error::TooManyParameters("x".to_owned())),
    );
    assert_eq!(
        parse("dns insert a.nl www ${foo} A 1.2.3.4"),
        Err(Error::InvalidNumber("${foo}".to_owned())),
    );
    let command = TransipCommand::Vps(VpsCommand::Action("${foo}".to_owned(), VpsAction::Stop));
    assert_eq!(parse(&command.to_string()), Ok(command));
}

#[test]
fn later_binding_wins() {
    let mut env = Environment::new();
    env.set("DOMAIN", "one.nl");
    env.set("DOMAIN", "two.nl");
    assert_eq!(env.get("DOMAIN"), Some("two.nl".to_owned()));
    assert_eq!(env.get("OTHER"), None);
    assert_eq!(
        TransipCommand::parse("email-box list ${DOMAIN}", &env, CaseRule::Exact),
        Ok(TransipCommand::EmailBox(EmailCommand::List("two.nl".to_owned()))),
    );
}

#[test]
fn comment_passthrough() {
    assert_eq!(
        parse("# anything, even malformed vps reset"),
        Ok(TransipCommand::Comment("# anything, even malformed vps reset".to_owned())),
    );
}

#[test]
fn scenario_set() {
    assert_eq!(
        parse("dns list example.nl"),
        Ok(TransipCommand::Dns(DnsCommand::List("example.nl".to_owned()))),
    );
    assert_eq!(
        parse("vps reset myvps2"),
        Ok(TransipCommand::Vps(VpsCommand::Action("myvps2".to_owned(), VpsAction::Reset))),
    );
    assert_eq!(parse("sleep 30"), Ok(TransipCommand::Sleep(30)));
    assert_eq!(
        parse("invoice item 98874"),
        Ok(TransipCommand::Invoice(InvoiceCommand::Action(
            "98874".to_owned(),
            InvoiceAction::Item
        ))),
    );
    assert_eq!(
        parse("vps unknown-verb x"),
        Err(Error::WrongSubCommand("unknown-verb".to_owned())),
    );
}

#[test]
fn arity_strictness() {
    assert_eq!(
        parse("domain item a.nl b.nl"),
        Err(Error::TooManyParameters("b.nl".to_owned())),
    );
    assert_eq!(
        parse("domain item"),
        Err(Error::MissingRequiredField("domain name".to_owned())),
    );
    assert_eq!(
        parse("dns acme-validation-set a.nl"),
        Err(Error::MissingRequiredField("challenge".to_owned())),
    );
    assert_eq!(
        parse("dns acme-validation-set a.nl x y"),
        Err(Error::TooManyParameters("y".to_owned())),
    );
    assert_eq!(parse("sleep"), Err(Error::MissingRequiredField("seconds".to_owned())));
    assert_eq!(parse("sleep 1 2"), Err(Error::TooManyParameters("2".to_owned())));
}

#[test]
fn top_level_errors() {
    assert_eq!(parse(""), Err(Error::UnparseableLine("".to_owned())));
    assert_eq!(parse("hello world"), Err(Error::UnparseableLine("hello world".to_owned())));
    assert_eq!(parse("ping now"), Err(Error::UnparseableLine("ping now".to_owned())));
    assert_eq!(parse("vps"), Err(Error::MissingSubCommand));
    assert_eq!(parse(" dns \t "), Err(Error::MissingSubCommand));
    assert_eq!(parse("dns  frob x"), Err(Error::WrongSubCommand("frob".to_owned())));
    assert_eq!(parse("sleep soon"), Err(Error::InvalidNumber("soon".to_owned())));
    assert_eq!(
        parse("sleep 18446744073709551616"),
        Err(Error::InvalidNumber("18446744073709551616".to_owned())),
    );
    assert_eq!(parse("sleep 18446744073709551615"), Ok(TransipCommand::Sleep(u64::MAX)));
    assert_eq!(parse("sleep +7"), Ok(TransipCommand::Sleep(7)));
    assert_eq!(
        parse("onerror ignore"),
        Err(Error::InvalidEnumValue("ignore".to_owned(), "onerror".to_owned())),
    );
    assert_eq!(
        TransipCommand::parse("onerror EXIT", &Environment::new(), CaseRule::IgnoreAsciiCase),
        Ok(TransipCommand::OnError(OnError::Exit)),
    );
}

#[test]
fn round_trip_examples() {
    let commands = vec![
        TransipCommand::Ping,
        TransipCommand::AvailabilityZones,
        TransipCommand::Sleep(0),
        TransipCommand::Sleep(1234567890123),
        TransipCommand::OnError(OnError::Print),
        TransipCommand::Vps(VpsCommand::Action("web-1".to_owned(), VpsAction::Unlock)),
        TransipCommand::EmailForward(EmailCommand::Insert("a.nl".to_owned(), "b".to_owned())),
        TransipCommand::EmailBox(EmailCommand::Delete("a.nl".to_owned(), "c".to_owned())),
        TransipCommand::Dns(DnsCommand::AcmeValidationDelete("a.nl".to_owned())),
    ];
    for c in commands {
        let text = c.to_string();
        assert_eq!(parse(&text), Ok(c.clone()));
        assert_eq!(parse(&format!("  {}   ", text)), Ok(c));
    }
}

#[test]
fn line_sources() {
    let tty = TTYLinesBuilder::prompt("tipctl").exit_on(&["exit", "quit"]).history("history.txt");
    assert_eq!(tty.prompt_name, "tipctl");
    assert_eq!(tty.exit_terms, vec!["exit".to_owned(), "quit".to_owned()]);
    assert_eq!(tty.history_filename, Some("history.txt".to_owned()));
    assert!(tty.is_exit_term("  quit "));
    assert!(!tty.is_exit_term("quit now"));
    let file = FileLinesBuilder::file("script.txt");
    assert!(!file.replace_variables);
    let file = file.replace_variables();
    assert!(file.replace_variables);
    assert_eq!(file.filename, "script.txt");
}
