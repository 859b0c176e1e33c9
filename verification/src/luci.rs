//! The status files that the OpenWrt web interface (LuCI) reads, as requests.
use vstd::prelude::*;
use crate::text::string_of;

verus! {

/// A change to the status files: write `value` under `key`, or remove `key`.
pub enum LuciOp {
    Write { key: String, value: String },
    Clear { key: String },
}

/// A change to the status files with its strings as character sequences.
pub enum LuciOpV {
    Write { key: Seq<char>, value: Seq<char> },
    Clear { key: Seq<char> },
}

impl View for LuciOp {
    type V = LuciOpV;

    open spec fn view(&self) -> LuciOpV {
        match self {
            LuciOp::Write { key, value } => LuciOpV::Write { key: key@, value: value@ },
            LuciOp::Clear { key } => LuciOpV::Clear { key: key@ },
        }
    }
}

/// The keys that a reset removes; the login status stays for the page to read.
pub open spec fn reset_keys() -> Seq<Seq<char>> {
    seq!["user"@, "rtmp"@, "stream"@, "qr_url"@, "error"@]
}

/// What a reset does: remove each runtime key, in order.
pub open spec fn reset_spec() -> Seq<LuciOpV> {
    reset_keys().map_values(|k: Seq<char>| LuciOpV::Clear { key: k })
}

/// Write `value` under `key`.
pub fn set(key: &str, value: &str) -> (op: LuciOp)
    ensures
        op@ == (LuciOpV::Write { key: key@, value: value@ }),
{
    LuciOp::Write { key: string_of(key), value: string_of(value) }
}

/// Remove `key`.
pub fn clear(key: &str) -> (op: LuciOp)
    ensures
        op@ == (LuciOpV::Clear { key: key@ }),
{
    LuciOp::Clear { key: string_of(key) }
}

/// Reset after a broadcast: remove the runtime keys.
pub fn reset() -> (ops: Vec<LuciOp>)
    ensures
        ops@.map_values(|o: LuciOp| o@) == reset_spec(),
{
    let mut ops: Vec<LuciOp> = Vec::new();
    ops.push(clear("user"));
    ops.push(clear("rtmp"));
    ops.push(clear("stream"));
    ops.push(clear("qr_url"));
    ops.push(clear("error"));
    assert(ops@.map_values(|o: LuciOp| o@) =~= reset_spec());
    ops
}

/// At start-up (after the caller creates the status directory): a reset.
pub fn init() -> (ops: Vec<LuciOp>)
    ensures
        ops@.map_values(|o: LuciOp| o@) == reset_spec(),
{
    reset()
}

/// The status files as a map from key to contents.
pub open spec fn read_spec(files: Map<Seq<char>, Seq<char>>, key: Seq<char>) -> Option<Seq<char>> {
    if files.dom().contains(key) {
        Some(files[key])
    } else {
        None
    }
}

/// The status files after a change.
pub open spec fn apply_spec(files: Map<Seq<char>, Seq<char>>, op: LuciOpV) -> Map<Seq<char>, Seq<char>> {
    match op {
        LuciOpV::Write { key, value } => files.insert(key, value),
        LuciOpV::Clear { key } => files.remove(key),
    }
}

/// A command of the page: present when its key holds exactly `1`, and then
/// consumed (the key removed).
pub open spec fn command_spec(key: Seq<char>, current: Option<Seq<char>>) -> (bool, Option<LuciOpV>) {
    if current == Some("1"@) {
        (true, Some(LuciOpV::Clear { key }))
    } else {
        (false, None)
    }
}

/// Whether the command under `key` is present, given what the key holds
/// (`current`, as the caller read it): it is when the key holds exactly `1`,
/// and then it is consumed by removing the key (the change returned, which
/// the caller carries out); otherwise nothing changes.
pub fn has_command(key: &str, current: Option<&str>) -> (r: (bool, Option<LuciOp>))
    ensures
        r.0 == command_spec(key@, opt_str(current)).0,
        (match r.1 {
            Some(op) => Some(op@),
            None => None,
        }) == command_spec(key@, opt_str(current)).1,
{
    match current {
        Some(v) => {
            let cs = crate::text::chars_of(v);
            proof {
                reveal_strlit("1");
            }
            if cs.len() == 1 && cs[0] == '1' {
                assert(v@ =~= "1"@);
                (true, Some(clear(key)))
            } else {
                assert(v@ != "1"@);
                (false, None)
            }
        },
        None => (false, None),
    }
}

/// A text that may be absent, as a sequence.
pub open spec fn opt_str(o: Option<&str>) -> Option<Seq<char>> {
    match o {
        Some(s) => Some(s@),
        None => None,
    }
}

/// A command is consumed exactly once: after the page writes `1` under a
/// key, the command is present and its consumption removes the key, so that
/// the next look finds none; a key that does not hold exactly `1` is no
/// command and is left as it is.
pub proof fn law_command_consumed_once(files: Map<Seq<char>, Seq<char>>, key: Seq<char>)
    ensures
        ({
            let f1 = apply_spec(files, LuciOpV::Write { key, value: "1"@ });
            let (present, op) = command_spec(key, read_spec(f1, key));
            &&& present
            &&& op == Some(LuciOpV::Clear { key })
            &&& read_spec(apply_spec(f1, op->Some_0), key) is None
            &&& !command_spec(key, read_spec(apply_spec(f1, op->Some_0), key)).0
        }),
        read_spec(files, key) != Some("1"@) ==> command_spec(key, read_spec(files, key)) == (false, None::<LuciOpV>),
{
}

} // verus!
