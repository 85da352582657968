//! What the client does once it has looked for a newer release of itself,
//! as the `PCSC_UPDATED` setting asks.
use vstd::prelude::*;

verus! {

/// The step after an update check.
#[derive(Clone, Copy, Debug, PartialEq, Eq, Structural)]
pub enum AfterUpdate {
    /// Carry on with the running program.
    Continue,
    /// Exit, so that a supervisor starts the new release.
    Terminate,
    /// Start the newly installed binary, then exit.
    Restart,
}

/// The step the `PCSC_UPDATED` setting asks for: nothing unless a new release
/// was installed; then `restart` restarts, `terminate` exits, and `none`, any
/// other value or no setting at all carry on.
pub open spec fn after_update_spec(updated: bool, setting: Option<Seq<char>>) -> AfterUpdate {
    if !updated {
        AfterUpdate::Continue
    } else {
        match setting {
            Some(s) => if s == "restart"@ {
                AfterUpdate::Restart
            } else if s == "terminate"@ {
                AfterUpdate::Terminate
            } else {
                AfterUpdate::Continue
            },
            None => AfterUpdate::Continue,
        }
    }
}

/// Whether two texts are the same.
fn same_text(a: &str, b: &str) -> (eq: bool)
    ensures
        eq == (a@ == b@),
{
    String::from_str(a) == String::from_str(b)
}

/// Decides the step after an update check from whether a new release was
/// installed and the value of the `PCSC_UPDATED` setting, if it is set.
pub fn after_update(updated: bool, setting: Option<&str>) -> (step: AfterUpdate)
    ensures
        step == after_update_spec(
            updated,
            match setting {
                Some(s) => Some(s@),
                None => None,
            },
        ),
{
    if !updated {
        return AfterUpdate::Continue;
    }
    match setting {
        Some(s) => {
            if same_text(s, "restart") {
                AfterUpdate::Restart
            } else if same_text(s, "terminate") {
                AfterUpdate::Terminate
            } else {
                AfterUpdate::Continue
            }
        },
        None => AfterUpdate::Continue,
    }
}

/// The setting's default is to carry on: with no setting, or with `none`,
/// the client carries on whether or not a new release was installed.
pub proof fn lemma_default_setting_continues(updated: bool)
    ensures
        after_update_spec(updated, None) == AfterUpdate::Continue,
        after_update_spec(updated, Some("none"@)) == AfterUpdate::Continue,
{
    reveal_strlit("none");
    reveal_strlit("restart");
    reveal_strlit("terminate");
    assert("none"@[0] != "restart"@[0]);
    assert("none"@[0] != "terminate"@[0]);
}

} // verus!
