//! The `vps` grammar.
use vstd::prelude::*;
use vstd::string::*;
use crate::env::Environment;
use crate::error::{Error, ErrorView};
use crate::grammar::{expect_end, field, finish, take_field};
use crate::text::{keyword_is, kw_match, CaseRule};
use crate::words::{next_token, Words};

verus! {

/// What to do with one virtual private server.
#[derive(Clone, Copy, Debug, PartialEq, Eq)]
pub enum VpsAction {
    Item,
    Lock,
    Unlock,
    Start,
    Stop,
    Reset,
}

/// The keyword of a vps action.
pub open spec fn vps_action_text(a: VpsAction) -> Seq<char> {
    match a {
        VpsAction::Item => "item"@,
        VpsAction::Lock => "lock"@,
        VpsAction::Unlock => "unlock"@,
        VpsAction::Start => "start"@,
        VpsAction::Stop => "stop"@,
        VpsAction::Reset => "reset"@,
    }
}

/// The vps action that token `t` names under `case`.
pub open spec fn vps_action_of(t: Seq<char>, case: CaseRule) -> Option<VpsAction> {
    if kw_match(t, "item"@, case) {
        Some(VpsAction::Item)
    } else if kw_match(t, "lock"@, case) {
        Some(VpsAction::Lock)
    } else if kw_match(t, "unlock"@, case) {
        Some(VpsAction::Unlock)
    } else if kw_match(t, "start"@, case) {
        Some(VpsAction::Start)
    } else if kw_match(t, "stop"@, case) {
        Some(VpsAction::Stop)
    } else if kw_match(t, "reset"@, case) {
        Some(VpsAction::Reset)
    } else {
        None
    }
}

impl VpsAction {
    /// The keyword of this action.
    pub fn as_str(&self) -> (r: &'static str)
        ensures
            r@ == vps_action_text(*self),
    {
        match self {
            VpsAction::Item => "item",
            VpsAction::Lock => "lock",
            VpsAction::Unlock => "unlock",
            VpsAction::Start => "start",
            VpsAction::Stop => "stop",
            VpsAction::Reset => "reset",
        }
    }

    /// The action that token `t` names under `case`.
    pub fn from_keyword(t: &str, case: CaseRule) -> (r: Option<VpsAction>)
        ensures
            r == vps_action_of(t@, case),
    {
        if keyword_is(t, "item", case) {
            Some(VpsAction::Item)
        } else if keyword_is(t, "lock", case) {
            Some(VpsAction::Lock)
        } else if keyword_is(t, "unlock", case) {
            Some(VpsAction::Unlock)
        } else if keyword_is(t, "start", case) {
            Some(VpsAction::Start)
        } else if keyword_is(t, "stop", case) {
            Some(VpsAction::Stop)
        } else if keyword_is(t, "reset", case) {
            Some(VpsAction::Reset)
        } else {
            None
        }
    }
}

/// Operations on virtual private servers.
#[derive(Debug, Clone, PartialEq, Eq)]
pub enum VpsCommand {
    /// All servers.
    List,
    /// One server, by name, and what to do with it.
    Action(String, VpsAction),
}

/// Mathematical value of a [`VpsCommand`].
pub enum VpsCommandView {
    List,
    Action(Seq<char>, VpsAction),
}

impl View for VpsCommand {
    type V = VpsCommandView;

    open spec fn view(&self) -> VpsCommandView {
        match self {
            VpsCommand::List => VpsCommandView::List,
            VpsCommand::Action(n, a) => VpsCommandView::Action(n@, *a),
        }
    }
}

/// What the `vps` grammar makes of the text `s` after the keyword.
pub open spec fn parse_vps(s: Seq<char>, env: Seq<(Seq<char>, Seq<char>)>, case: CaseRule) -> Result<
    VpsCommandView,
    ErrorView,
> {
    match next_token(s) {
        None => Err(ErrorView::MissingSubCommand),
        Some(v) => if kw_match(v.0, "list"@, case) {
            finish(v.1, VpsCommandView::List)
        } else {
            match vps_action_of(v.0, case) {
                None => Err(ErrorView::WrongSubCommand(v.0)),
                Some(a) => match field(v.1, env, "vps name"@) {
                    Err(e) => Err(e),
                    Ok(n) => finish(n.1, VpsCommandView::Action(n.0, a)),
                },
            }
        },
    }
}

/// The canonical text of a `vps` sub-command.
pub open spec fn render_vps(c: VpsCommandView) -> Seq<char> {
    match c {
        VpsCommandView::List => "list"@,
        VpsCommandView::Action(n, a) => vps_action_text(a) + (" "@ + n),
    }
}

impl VpsCommand {
    /// Parses the words after the `vps` keyword.
    pub fn from_words(words: Words, env: &Environment, case: CaseRule) -> (r: Result<
        VpsCommand,
        Error,
    >)
        ensures
            crate::error::result_view(r) == parse_vps(words@, env@, case),
    {
        let mut words = words;
        let verb = match words.next() {
            None => return Err(Error::MissingSubCommand),
            Some(v) => v,
        };
        if keyword_is(verb.as_str(), "list", case) {
            expect_end(&mut words)?;
            return Ok(VpsCommand::List);
        }
        match VpsAction::from_keyword(verb.as_str(), case) {
            None => Err(Error::WrongSubCommand(verb)),
            Some(a) => {
                let name = take_field(&mut words, env, "vps name")?;
                expect_end(&mut words)?;
                Ok(VpsCommand::Action(name, a))
            },
        }
    }

    /// The canonical text of this sub-command.
    pub fn to_string(&self) -> (r: String)
        ensures
            r@ == render_vps(self@),
    {
        match self {
            VpsCommand::List => "list".to_owned(),
            VpsCommand::Action(n, a) => {
                let mut r = a.as_str().to_owned();
                r.append(" ");
                r.append(n.as_str());
                assert(r@ =~= render_vps(self@));
                r
            },
        }
    }
}

} // verus!
