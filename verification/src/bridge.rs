use vstd::prelude::*;
use vstd::string::StringExecFns;
use crate::value::Val;
use crate::value::snap_wf;
use crate::errors::HostError;
use crate::json::entries_to_json_text;
use crate::json::entries_serializable;

verus! {

broadcast use vstd::std_specs::vec::group_vec_axioms, vstd::seq::group_seq_axioms;

/// What came back for the body of an HTTP reply: its text, or the message
/// of the decoding failure.
pub enum BodyOutcome {
    Text(String),
    Undecodable(String),
}

/// What one HTTP exchange came to: a reply with its status text and body
/// outcome, or a transport failure (name resolution, connect, timeout)
/// with its description.
pub enum FetchOutcome {
    Reply(String, BodyOutcome),
    Transport(String),
}

/// What a capability call hands to the script for a given exchange
/// outcome: any reply, whatever its status code, is a success carrying
/// status and body text (a body that could not be decoded is replaced by
/// the decode failure's message); only a transport failure is an error.
pub open spec fn fetch_interp(o: FetchOutcome) -> Result<(Seq<char>, Seq<char>), Seq<char>> {
    match o {
        FetchOutcome::Reply(s, BodyOutcome::Text(b)) => Ok((s@, b@)),
        FetchOutcome::Reply(s, BodyOutcome::Undecodable(m)) => Ok((s@, m@)),
        FetchOutcome::Transport(e) => Err(e@),
    }
}

/// Relies on reqwest::blocking::get, Response::status and Response::text:
/// the status text is the three-digit decimal status code; a transport
/// failure is returned as the error's description.
#[verifier::external_body]
fn http_get_raw(url: &str) -> (r: FetchOutcome)
    ensures
        r matches FetchOutcome::Reply(s, b) ==> s@.len() == 3,
{
    match reqwest::blocking::get(url) {
        Ok(res) => {
            let status = res.status().as_str().to_string();
            match res.text() {
                Ok(b) => FetchOutcome::Reply(status, BodyOutcome::Text(b)),
                Err(e) => FetchOutcome::Reply(status, BodyOutcome::Undecodable(e.to_string())),
            }
        },
        Err(e) => FetchOutcome::Transport(e.to_string()),
    }
}

/// Relies on reqwest::blocking::Client::post with a plain string body,
/// Response::status and Response::text, as `http_get_raw` does.
#[verifier::external_body]
fn http_post_raw(url: &str, body: String) -> (r: FetchOutcome)
    ensures
        r matches FetchOutcome::Reply(s, b) ==> s@.len() == 3,
{
    match reqwest::blocking::Client::new().post(url).body(body).send() {
        Ok(res) => {
            let status = res.status().as_str().to_string();
            match res.text() {
                Ok(b) => FetchOutcome::Reply(status, BodyOutcome::Text(b)),
                Err(e) => FetchOutcome::Reply(status, BodyOutcome::Undecodable(e.to_string())),
            }
        },
        Err(e) => FetchOutcome::Transport(e.to_string()),
    }
}

/// Turn an exchange outcome into the capability result: exactly
/// `fetch_interp` of the outcome, with transport failures as
/// `HostError::Transport`.
pub fn interpret_fetch(o: FetchOutcome) -> (r: Result<(String, String), HostError>)
    ensures
        (match fetch_interp(o) {
            Ok(p) => r matches Ok(q) && q.0@ == p.0 && q.1@ == p.1,
            Err(e) => r matches Err(he) && he is Transport && he.message_view() == e,
        }),
{
    match o {
        FetchOutcome::Reply(s, BodyOutcome::Text(b)) => Ok((s, b)),
        FetchOutcome::Reply(s, BodyOutcome::Undecodable(m)) => Ok((s, m)),
        FetchOutcome::Transport(e) => Err(HostError::Transport(e)),
    }
}

/// HTTP GET capability. Every reply, a 404 as much as a 200, is a success
/// carrying the three-digit status text and the body; only a transport
/// failure is an error, and always a `Transport` one.
///
/// The exchange blocks, and the underlying client refuses to start from
/// inside an async runtime: call it from a blocking thread, as the
/// embedding application's worker pool does.
pub fn get(url: &str) -> (r: Result<(String, String), HostError>)
    ensures
        r matches Err(e) ==> e is Transport,
        r matches Ok(p) ==> p.0@.len() == 3,
{
    interpret_fetch(http_get_raw(url))
}

/// HTTP POST capability with a plain text body; same success and error
/// split as `get`, and to be called from a blocking thread as `get` is.
pub fn post_text(url: &str, text: &str) -> (r: Result<(String, String), HostError>)
    ensures
        r matches Err(e) ==> e is Transport,
        r matches Ok(p) ==> p.0@.len() == 3,
{
    interpret_fetch(http_post_raw(url, text.to_owned()))
}

/// HTTP POST capability for a map value: the map is written as JSON text
/// first, and a value outside the serializable subset is a
/// `Serialization` error before anything is sent; after that the split is
/// as in `get`, and the call belongs on a blocking thread as `get` does.
pub fn post_json(url: &str, map: &Vec<(String, Val)>) -> (r: Result<(String, String), HostError>)
    requires
        snap_wf(map@),
    ensures
        !entries_serializable(map@) ==> (r matches Err(e) && e is Serialization),
        entries_serializable(map@) ==> !(r matches Err(e) && e is Serialization),
        r matches Err(e) ==> (e is Transport || e is Serialization),
        r matches Ok(p) ==> p.0@.len() == 3,
{
    match entries_to_json_text(map) {
        Err(e) => Err(e),
        Ok(body) => interpret_fetch(http_post_raw(url, body)),
    }
}

/// What one remote command came to under a session: its output, or the
/// description of its failure.
pub enum CommandOutcome {
    Output(String),
    Failed(String),
}

/// The text a command outcome contributes to the combined output: the
/// output itself, or a bracketed failure marker.
pub open spec fn piece_view(c: CommandOutcome) -> Seq<char> {
    match c {
        CommandOutcome::Output(t) => t@,
        CommandOutcome::Failed(m) => "[command failed: "@ + m@ + "]"@,
    }
}

/// The combined output of a command sequence, in order.
pub open spec fn combined_view(s: Seq<CommandOutcome>) -> Seq<char>
    decreases s,
{
    if s.len() == 0 {
        Seq::empty()
    } else {
        combined_view(s.drop_last()) + piece_view(s.last())
    }
}

/// Combine per-command outcomes: outputs are concatenated in order, and a
/// failing command does not abort the sequence but leaves a failure
/// marker in its place.
#[verifier::loop_isolation(false)]
pub fn combine_command_outputs(results: &Vec<CommandOutcome>) -> (r: String)
    ensures
        r@ == combined_view(results@),
{
    let mut acc = String::new();
    let mut i: usize = 0;
    while i < results.len()
        invariant
            i <= results.len(),
            acc@ == combined_view(results@.take(i as int)),
        decreases results.len() - i,
    {
        match &results[i] {
            CommandOutcome::Output(t) => {
                acc = acc.concat(t.as_str());
            },
            CommandOutcome::Failed(m) => {
                acc = acc.concat("[command failed: ");
                acc = acc.concat(m.as_str());
                acc = acc.concat("]");
            },
        }
        i = i + 1;
        proof {
            assert(results@.take(i as int).drop_last() =~= results@.take(i as int - 1));
            assert(results@.take(i as int).last() == results@[i as int - 1]);
        }
    }
    proof {
        assert(results@.take(results@.len() as int) =~= results@);
    }
    acc
}

/// The remote-command capability's decision: with an established session
/// the result is the combined output of every command's outcome; when the
/// session could not be established the whole call is a transport error
/// carrying the connection failure's description.
pub fn remote_command_result(session: Result<Vec<CommandOutcome>, String>) -> (r: Result<
    String,
    HostError,
>)
    ensures
        (match session {
            Ok(results) => r matches Ok(s) && s@ == combined_view(results@),
            Err(e) => r matches Err(he) && he is Transport && he.message_view() == e@,
        }),
{
    match session {
        Ok(results) => Ok(combine_command_outputs(&results)),
        Err(e) => Err(HostError::Transport(e)),
    }
}

/// Placeholder remote session: no transport is wired into the library, so
/// no session is established and no command runs; the embedding
/// application supplies per-command outcomes to `remote_command_result`
/// through whatever transport it configures.
pub fn ssh_connect(ip: &str, username: &str, password: &str, commands: Vec<String>) -> (r: String)
    ensures
        r@ == Seq::<char>::empty(),
{
    String::new()
}

} // verus!
