use crate::responder::BlitzQuote;
use crate::responder::ReplyPayload;
use crate::responder::render_ping;
use crate::responder::render_quote;
use crate::responder::render_reason;
use crate::responder::pics_link;
use crate::responder::spec_pics_link;
use crate::responder::spec_render_ping;
use crate::responder::spec_render_quote;
use crate::responder::spec_render_reason;
use crate::store::EmptyStoreError;
use crate::store::Store;
use vstd::prelude::*;
use vstd::string::StringExecFns;

verus! {

/// What the handler asks the transport boundary to do for one inbound
/// event: send an embed, send bare text, write a log line, or nothing.
#[derive(Debug)]
pub enum Action {
    SendEmbed(ReplyPayload),
    SendText(String),
    Log(String),
    Ignore,
}

fn str_eq(a: &str, b: &str) -> (r: bool)
    ensures
        r == (a@ == b@),
{
    let sa = String::from_str(a);
    let sb = String::from_str(b);
    sa == sb
}

/// The log line written when a session connects, naming the connected user.
pub open spec fn spec_ready_log(user_name: Seq<char>) -> Seq<char> {
    user_name + " is connected!"@
}

/// On the ready event: one log line naming the connected identity, no
/// state change and no send.
pub fn handle_ready(user_name: &str) -> (r: Action)
    ensures
        r matches Action::Log(m) && m@ == spec_ready_log(user_name@),
{
    let mut m = String::new();
    m.append(user_name);
    m.append(" is connected!");
    Action::Log(m)
}

/// The log line written for a command name outside the registered set.
pub open spec fn spec_unknown_log(name: Seq<char>) -> Seq<char> {
    "Could not find command named '"@ + name + "'"@
}

/// On a command name outside the registered set: exactly one log line
/// naming that command, and no send of any kind.
pub fn handle_unrecognized_command(name: &str) -> (r: Action)
    ensures
        r matches Action::Log(m) && m@ == spec_unknown_log(name@),
{
    let mut m = String::new();
    m.append("Could not find command named '");
    m.append(name);
    m.append("'");
    Action::Log(m)
}

/// On an inbound text message: the literal `!ping` yields the fixed ping
/// embed, the literal `.pics` yields the picture link as bare text, and
/// every other text is silently ignored.
pub fn handle_message(text: &str) -> (r: Action)
    ensures
        text@ == "!ping"@ ==> (r matches Action::SendEmbed(p) && p@ == spec_render_ping()),
        text@ == ".pics"@ ==> (r matches Action::SendText(s) && s@ == spec_pics_link()),
        text@ != "!ping"@ && text@ != ".pics"@ ==> r is Ignore,
{
    proof {
        reveal_strlit("!ping");
        reveal_strlit(".pics");
        assert("!ping"@[0] == '!' && ".pics"@[0] == '.');
        assert("!ping"@ != ".pics"@);
    }
    if str_eq(text, "!ping") {
        Action::SendEmbed(render_ping())
    } else if str_eq(text, ".pics") {
        Action::SendText(pics_link())
    } else {
        Action::Ignore
    }
}

/// The quote command: picks one quote uniformly at random and renders it.
/// Succeeds exactly when the store is non-empty; the payload then renders
/// some entry of the store.
pub fn blitz_reply(quotes: &Store<BlitzQuote>) -> (r: Result<ReplyPayload, EmptyStoreError>)
    ensures
        quotes@.len() > 0 ==> (r matches Ok(p) && exists|i: int|
            0 <= i < quotes@.len() && p@ == spec_render_quote(
                quotes@[i].quote@,
                quotes@[i].author@,
            )),
        quotes@.len() == 0 ==> (r matches Err(err) && err == EmptyStoreError),
{
    match quotes.pick_random() {
        Ok(entry) => Ok(render_quote(entry)),
        Err(err) => Err(err),
    }
}

/// The reason command: picks one reason uniformly at random and renders
/// it. Succeeds exactly when the store is non-empty; the payload then
/// renders some entry of the store.
pub fn whyrust_reply(reasons: &Store<String>) -> (r: Result<ReplyPayload, EmptyStoreError>)
    ensures
        reasons@.len() > 0 ==> (r matches Ok(p) && exists|i: int|
            0 <= i < reasons@.len() && p@ == spec_render_reason(reasons@[i]@)),
        reasons@.len() == 0 ==> (r matches Err(err) && err == EmptyStoreError),
{
    match reasons.pick_random() {
        Ok(entry) => Ok(render_reason(entry)),
        Err(err) => Err(err),
    }
}

} // verus!
