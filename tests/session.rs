use transip_command::{
    is_blank, CaseRule, Environment, Error, OnError, Session, Step, TransipCommand,
};

fn parse(line: &str) -> Result<TransipCommand, Error> {
    TransipCommand::parse(line, &Environment::new(), CaseRule::Exact)
}

#[test]
fn session_steps() {
    let mut session = Session::new();
    assert_eq!(session.on_error, OnError::Print);
    assert_eq!(session.step(&parse("# note")), Step::Skip);
    assert_eq!(session.step(&parse("sleep 2")), Step::Wait(2));
    assert_eq!(session.step(&parse("ping")), Step::Run);
    assert_eq!(session.step(&parse("vps explode x")), Step::Report);
    assert!(!session.exit_on_error());
    assert_eq!(session.step(&parse("onerror exit")), Step::Skip);
    assert_eq!(session.on_error, OnError::Exit);
    assert!(session.exit_on_error());
    assert_eq!(session.step(&parse("vps explode x")), Step::ReportAndStop);
    assert_eq!(session.failed(), Step::ReportAndStop);
    assert_eq!(session.step(&parse("onerror print")), Step::Skip);
    assert_eq!(session.failed(), Step::Report);
}

#[test]
fn blank_lines() {
    assert!(is_blank(""));
    assert!(is_blank(" \t "));
    assert!(!is_blank("  ping"));
}
