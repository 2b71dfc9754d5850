use transip_command::{
    CaseRule, DnsCommand, DnsEntry, DomainCommand, EmailCommand, Environment, Error,
    InvoiceAction, InvoiceCommand, ProductCommand, RecordType, VpsAction, VpsCommand, Words,
};

const EXACT: CaseRule = CaseRule::Exact;

fn no_env() -> Environment {
    Environment::new()
}

#[test]
fn dns_display() {
    assert_eq!(
        DnsCommand::List("paulmin.nl".to_owned()).to_string(),
        "list paulmin.nl".to_owned(),
    );

    assert_eq!(
        DnsCommand::AcmeValidationDelete("paulmin.nl".to_owned()).to_string(),
        "acme-validation-delete paulmin.nl".to_owned(),
    );

    assert_eq!(
        DnsCommand::AcmeValidationSet("paulmin.nl".to_owned(), "hallo".to_owned()).to_string(),
        "acme-validation-set paulmin.nl hallo".to_owned(),
    );
}

#[test]
fn dns_from_str() {
    let mut env = Environment::new();
    env.set("CERTBOT_DOMAIN", "paulmin.nl");
    env.set("CERTBOT_VALIDATION", "876543");
    assert_eq!(
        DnsCommand::from_words(
            Words::from("acme-validation-set ${CERTBOT_DOMAIN} ${CERTBOT_VALIDATION}"),
            &env,
            EXACT,
        )
        .unwrap(),
        DnsCommand::AcmeValidationSet("paulmin.nl".to_owned(), "876543".to_owned())
    );
}

#[test]
fn dns_insert_entry() {
    let entry = DnsEntry {
        name: "www".to_owned(),
        ttl: 300,
        record_type: RecordType::TXT,
        content: "v=spf1 include:example.com ~all".to_owned(),
    };
    assert_eq!(
        DnsCommand::from_words(
            Words::from("insert example.nl www 300 TXT   v=spf1 include:example.com ~all  "),
            &no_env(),
            EXACT,
        ),
        Ok(DnsCommand::Insert("example.nl".to_owned(), entry.clone())),
    );
    assert_eq!(
        DnsCommand::Delete("example.nl".to_owned(), entry).to_string(),
        "delete example.nl www 300 TXT v=spf1 include:example.com ~all".to_owned(),
    );
}

#[test]
fn dns_entry_errors() {
    let env = no_env();
    assert_eq!(
        DnsCommand::from_words(Words::from("insert example.nl www 3x0 A 1.2.3.4"), &env, EXACT),
        Err(Error::InvalidNumber("3x0".to_owned())),
    );
    assert_eq!(
        DnsCommand::from_words(Words::from("insert example.nl www 60 XYZ 1.2.3.4"), &env, EXACT),
        Err(Error::InvalidEnumValue("XYZ".to_owned(), "record type".to_owned())),
    );
    assert_eq!(
        DnsCommand::from_words(Words::from("insert example.nl www 60 a 1.2.3.4"), &env, EXACT),
        Err(Error::InvalidEnumValue("a".to_owned(), "record type".to_owned())),
    );
    assert_eq!(
        DnsCommand::from_words(
            Words::from("insert example.nl www 60 a 1.2.3.4"),
            &env,
            CaseRule::IgnoreAsciiCase,
        )
        .map(|c| c.to_string()),
        Ok("insert example.nl www 60 A 1.2.3.4".to_owned()),
    );
    assert_eq!(
        DnsCommand::from_words(Words::from("delete example.nl www 60 A"), &env, EXACT),
        Err(Error::MissingRequiredField("content".to_owned())),
    );
    assert_eq!(
        DnsCommand::from_words(Words::from("delete example.nl www"), &env, EXACT),
        Err(Error::MissingRequiredField("ttl".to_owned())),
    );
    assert_eq!(
        DnsCommand::from_words(Words::from("update example.nl"), &env, EXACT),
        Err(Error::WrongSubCommand("update".to_owned())),
    );
    assert_eq!(
        DnsCommand::from_words(Words::from(""), &env, EXACT),
        Err(Error::MissingSubCommand),
    );
}

#[test]
fn domain_display() {
    assert_eq!(
        DomainCommand::Item("paulmin.nl".to_owned()).to_string(),
        "item paulmin.nl".to_owned(),
    );

    assert_eq!(DomainCommand::List.to_string(), "list".to_owned(),);
}

#[test]
fn try_from() {
    assert_eq!(
        DomainCommand::from_words(Words::from("  item   paulmin.nl   "), &no_env(), EXACT)
            .unwrap(),
        DomainCommand::Item("paulmin.nl".to_owned())
    );
}

#[test]
fn domain_from_str() {
    assert_eq!(
        DomainCommand::from_words(Words::from("list"), &no_env(), EXACT).unwrap(),
        DomainCommand::List,
    );

    assert_eq!(
        DomainCommand::from_words(Words::from("item paulmin.nl"), &no_env(), EXACT).unwrap(),
        DomainCommand::Item("paulmin.nl".to_owned()),
    );
}

#[test]
fn test_from_str() {
    assert_eq!(
        EmailCommand::from_words(Words::from("item example.nl hallo"), &no_env(), EXACT),
        Ok(EmailCommand::Item("example.nl".to_owned(), "hallo".to_owned())),
    );
}

#[test]
fn email_verbs() {
    let env = no_env();
    assert_eq!(
        EmailCommand::from_words(Words::from("update example.nl 12 new"), &env, EXACT),
        Ok(EmailCommand::Update("example.nl".to_owned(), "12".to_owned(), "new".to_owned())),
    );
    assert_eq!(
        EmailCommand::Update("example.nl".to_owned(), "12".to_owned(), "new".to_owned())
            .to_string(),
        "update example.nl 12 new".to_owned(),
    );
    assert_eq!(
        EmailCommand::from_words(Words::from("update example.nl 12"), &env, EXACT),
        Err(Error::MissingRequiredField("value".to_owned())),
    );
    assert_eq!(
        EmailCommand::from_words(Words::from("list example.nl extra"), &env, EXACT),
        Err(Error::TooManyParameters("extra".to_owned())),
    );
    assert_eq!(
        EmailCommand::from_words(Words::from("frobnicate example.nl"), &env, EXACT),
        Err(Error::WrongSubCommand("frobnicate".to_owned())),
    );
}

#[test]
fn invoice_display() {
    assert_eq!(
        InvoiceCommand::Action("98234".to_owned(), InvoiceAction::Item).to_string(),
        "item 98234".to_owned(),
    );

    assert_eq!(
        InvoiceCommand::Action("98234".to_owned(), InvoiceAction::Pdf).to_string(),
        "pdf 98234".to_owned(),
    );

    assert_eq!(InvoiceCommand::List.to_string(), "list".to_owned(),);
}

#[test]
fn invoice_from_str() {
    assert_eq!(
        InvoiceCommand::from_words(Words::from("list"), &no_env(), EXACT).unwrap(),
        InvoiceCommand::List,
    );

    assert_eq!(
        InvoiceCommand::from_words(Words::from("item 98874"), &no_env(), EXACT).unwrap(),
        InvoiceCommand::Action("98874".to_owned(), InvoiceAction::Item),
    );

    assert_eq!(
        InvoiceCommand::from_words(Words::from("pdf 98874"), &no_env(), EXACT).unwrap(),
        InvoiceCommand::Action("98874".to_owned(), InvoiceAction::Pdf),
    );
}

#[test]
fn invoice_from_words() {
    let mut words: Words = Words::from("list");
    let _sub_command = words.next().ok_or(Error::MissingSubCommand).unwrap();
}

#[test]
fn product_display() {
    assert_eq!(
        ProductCommand::Elements("haip-basic-contract".to_owned()).to_string(),
        "elements haip-basic-contract".to_owned(),
    );

    assert_eq!(ProductCommand::List.to_string(), "list".to_string(),);
}

#[test]
fn product_from_words() {
    assert_eq!(
        ProductCommand::from_words(Words::from("list"), &no_env(), EXACT).unwrap(),
        ProductCommand::List,
    );

    assert!(ProductCommand::from_words(Words::from("list kdf"), &no_env(), EXACT).is_err());

    assert_eq!(
        ProductCommand::from_words(Words::from("elements lkjdf"), &no_env(), EXACT).unwrap(),
        ProductCommand::Elements("lkjdf".to_owned()),
    );

    assert!(
        ProductCommand::from_words(Words::from("elements ldkfj dkfjf"), &no_env(), EXACT)
            .is_err()
    );
}

#[test]
fn product_command_list_ok() {
    let result = ProductCommand::from_words(Words::from("list"), &no_env(), EXACT).unwrap();
    assert_eq!(result, ProductCommand::List);

    let result = ProductCommand::from_words(Words::from("list "), &no_env(), EXACT).unwrap();
    assert_eq!(result, ProductCommand::List);

    let result = ProductCommand::from_words(Words::from("   list "), &no_env(), EXACT).unwrap();
    assert_eq!(result, ProductCommand::List);
}

#[test]
fn product_command_elements_ok() {
    let result =
        ProductCommand::from_words(Words::from("elements vps"), &no_env(), EXACT).unwrap();
    assert_eq!(result, ProductCommand::Elements("vps".to_owned()));

    let result =
        ProductCommand::from_words(Words::from(" elements kubernetes"), &no_env(), EXACT)
            .unwrap();
    assert_eq!(result, ProductCommand::Elements("kubernetes".to_owned()));

    let result =
        ProductCommand::from_words(Words::from("elements  key"), &no_env(), EXACT).unwrap();
    assert_eq!(result, ProductCommand::Elements("key".to_owned()));
}

#[test]
fn vps_display() {
    assert_eq!(
        VpsCommand::Action("vps2".to_owned(), VpsAction::Start).to_string(),
        "start vps2".to_owned(),
    );

    assert_eq!(VpsCommand::List.to_string(), "list".to_owned(),);
}

#[test]
fn vps_case_rule() {
    let env = no_env();
    assert_eq!(
        VpsCommand::from_words(Words::from("RESET vps2"), &env, EXACT),
        Err(Error::WrongSubCommand("RESET".to_owned())),
    );
    assert_eq!(
        VpsCommand::from_words(Words::from("ReSeT vps2"), &env, CaseRule::IgnoreAsciiCase),
        Ok(VpsCommand::Action("vps2".to_owned(), VpsAction::Reset)),
    );
    assert_eq!(
        VpsCommand::from_words(Words::from("lock"), &env, EXACT),
        Err(Error::MissingRequiredField("vps name".to_owned())),
    );
}
