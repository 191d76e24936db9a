use vstd::prelude::*;
use vstd::string::*;

use crate::state::{opt_text, texts, State, StateModel};

verus! {

#[verifier::external_type_specification]
#[verifier::external_body]
pub struct ExEncoderError(rustc_serialize::json::EncoderError);

/// The lower-case hexadecimal digit of `n`, below sixteen.
pub open spec fn hex_digit(n: u32) -> char {
    "0123456789abcdef"@[n as int]
}

/// How one character stands inside a JSON string literal: quote and
/// backslash are escaped, backspace, tab, newline, form feed and carriage
/// return take their short escapes, the other control characters below
/// 0x20 and 0x7f take a `\u00XX` escape, and every other character stands
/// as it is.
pub open spec fn escaped_char(c: char) -> Seq<char> {
    if c == '"' {
        "\\\""@
    } else if c == '\\' {
        "\\\\"@
    } else if c == '\x08' {
        "\\b"@
    } else if c == '\t' {
        "\\t"@
    } else if c == '\n' {
        "\\n"@
    } else if c == '\x0c' {
        "\\f"@
    } else if c == '\r' {
        "\\r"@
    } else if (c as u32) < 0x20 || c as u32 == 0x7f {
        "\\u00"@ + seq![hex_digit(c as u32 / 16), hex_digit(c as u32 % 16)]
    } else {
        seq![c]
    }
}

/// The characters of `s`, each as it stands inside a JSON string literal.
pub open spec fn json_escaped(s: Seq<char>) -> Seq<char>
    decreases s.len(),
{
    if s.len() == 0 {
        Seq::empty()
    } else {
        json_escaped(s.drop_last()) + escaped_char(s.last())
    }
}

/// The JSON string literal of `s`: quoted, with its special characters escaped.
pub open spec fn json_quoted(s: Seq<char>) -> Seq<char> {
    "\""@ + json_escaped(s) + "\""@
}

/// Relies on rustc_serialize::json::encode applied to a `String`: it writes
/// into a `String`, which never fails, the string quoted and escaped one
/// character at a time.
#[verifier::external_body]
fn json_string(s: &String) -> (r: Result<String, rustc_serialize::json::EncoderError>)
    ensures
        r is Ok,
        r matches Ok(t) ==> t@ == json_quoted(s@),
{
    rustc_serialize::json::encode(s)
}

/// The lines of a non-empty array's members, one per member, indented by
/// four spaces and separated by commas.
pub open spec fn member_lines(items: Seq<Seq<char>>) -> Seq<char>
    decreases items.len(),
{
    if items.len() == 0 {
        Seq::empty()
    } else if items.len() == 1 {
        "    "@ + json_quoted(items[0])
    } else {
        member_lines(items.drop_last()) + ",\n    "@ + json_quoted(items.last())
    }
}

/// A JSON array of strings, laid out over several lines unless it is empty.
pub open spec fn array_text(items: Seq<Seq<char>>) -> Seq<char> {
    if items.len() == 0 {
        "[]"@
    } else {
        "[\n"@ + member_lines(items) + "\n  ]"@
    }
}

/// A JSON string, or `null` when there is none.
pub open spec fn selection_text(s: Option<Seq<char>>) -> Seq<char> {
    match s {
        Some(t) => json_quoted(t),
        None => "null"@,
    }
}

/// The preferences document written for `p`.
pub open spec fn prefs_text(p: Prefs) -> Seq<char> {
    "{\n  \"projects\": "@ + array_text(texts(p.projects@)) + ",\n  \"expansions\": "@
        + array_text(texts(p.expansions@)) + ",\n  \"selection\": "@ + selection_text(
        opt_text(p.selection),
    ) + "\n}"@
}

/// The durable state in the shape it is written to the preferences file:
/// the two sets of paths as sequences. The order of a sequence carries no
/// meaning when the file is read back.
pub struct Prefs {
    pub projects: Vec<String>,
    pub expansions: Vec<String>,
    pub selection: Option<String>,
}

/// The state that reading `p` back produces.
pub open spec fn restored(p: Prefs) -> StateModel {
    StateModel {
        projects: texts(p.projects@).to_set(),
        expansions: texts(p.expansions@).to_set(),
        selection: opt_text(p.selection),
    }
}

/// `p` is the snapshot of `s`: each set in the order it was filled, and the
/// selection.
pub open spec fn is_snapshot(p: Prefs, s: State) -> bool {
    &&& texts(p.projects@) == s.project_order()
    &&& texts(p.expansions@) == s.expansion_order()
    &&& opt_text(p.selection) == s@.selection
}

/// Appends the JSON array of `items` to `out`.
fn encode_array(items: &Vec<String>, out: &mut String)
    ensures
        final(out)@ == old(out)@ + array_text(texts(items@)),
{
    if items.len() == 0 {
        out.append("[]");
        return;
    }
    let ghost start = out@;
    out.append("[\n");
    let mut i: usize = 0;
    while i < items.len()
        invariant
            i <= items.len(),
            items.len() > 0,
            out@ == start + "[\n"@ + member_lines(texts(items@).subrange(0, i as int)),
        decreases items.len() - i,
    {
        let quoted = json_string(&items[i]).unwrap();
        if i == 0 {
            out.append("    ");
        } else {
            out.append(",\n    ");
        }
        out.append(quoted.as_str());
        let ghost done = texts(items@).subrange(0, i as int);
        i += 1;
        proof {
            let next = texts(items@).subrange(0, i as int);
            assert(next.drop_last() =~= done);
            assert(next.last() == items@[i - 1]@);
            if i == 1 {
                assert(done.len() == 0);
                assert(member_lines(done) =~= Seq::empty());
            }
        }
    }
    assert(texts(items@).subrange(0, i as int) =~= texts(items@));
    out.append("\n  ]");
}

/// The preferences document for `prefs`: a pretty-printed JSON object with
/// the keys `projects`, `expansions` and `selection`.
pub fn encode_prefs(prefs: &Prefs) -> (r: String)
    ensures
        r@ == prefs_text(*prefs),
{
    let mut out = String::new();
    out.append("{\n  \"projects\": ");
    encode_array(&prefs.projects, &mut out);
    out.append(",\n  \"expansions\": ");
    encode_array(&prefs.expansions, &mut out);
    out.append(",\n  \"selection\": ");
    match &prefs.selection {
        Some(s) => {
            let quoted = json_string(s).unwrap();
            out.append(quoted.as_str());
        },
        None => out.append("null"),
    }
    out.append("\n}");
    out
}

/// A copy of a vector of strings.
fn copy_paths(v: &Vec<String>) -> (r: Vec<String>)
    ensures
        texts(r@) == texts(v@),
{
    let mut r: Vec<String> = Vec::new();
    let mut i: usize = 0;
    while i < v.len()
        invariant
            i <= v.len(),
            r@.len() == i,
            texts(r@) == texts(v@).subrange(0, i as int),
        decreases v.len() - i,
    {
        let c = v[i].clone();
        let ghost prev = r@;
        r.push(c);
        assert(texts(r@) =~= texts(prev).push(c@));
        i += 1;
        assert(texts(r@) =~= texts(v@).subrange(0, i as int));
    }
    assert(texts(v@).subrange(0, i as int) =~= texts(v@));
    r
}

/// Takes the snapshot of the durable state that is written to disk.
pub fn get_prefs(state: &State) -> (r: Prefs)
    requires
        state.wf(),
    ensures
        is_snapshot(r, *state),
        restored(r) == state@,
{
    let selection = match state.selection() {
        Some(s) => Some(s.clone()),
        None => None,
    };
    let r = Prefs {
        projects: copy_paths(state.projects()),
        expansions: copy_paths(state.expansions()),
        selection,
    };
    proof {
        lemma_snapshot_round_trip(*state, r);
    }
    r
}

/// Applies the outcome of decoding the preferences file. When decoding
/// failed (`None`) the state is left as it was; otherwise both sets are
/// replaced by the decoded paths and the selection is overwritten.
pub fn read_prefs(state: &mut State, decoded: Option<Prefs>)
    requires
        old(state).wf(),
    ensures
        final(state).wf(),
        match decoded {
            Some(p) => final(state)@ == restored(p),
            None => final(state)@ == old(state)@,
        },
{
    if let Some(prefs) = decoded {
        state.clear_projects();
        let mut i: usize = 0;
        while i < prefs.projects.len()
            invariant
                state.wf(),
                i <= prefs.projects.len(),
                state@.projects == texts(prefs.projects@).subrange(0, i as int).to_set(),
            decreases prefs.projects.len() - i,
        {
            let ghost before = texts(prefs.projects@).subrange(0, i as int);
            state.insert_project(prefs.projects[i].clone());
            i += 1;
            proof {
                assert(texts(prefs.projects@).subrange(0, i as int) =~= before.push(
                    prefs.projects@[i - 1]@,
                ));
                before.lemma_push_to_set_commute(prefs.projects@[i - 1]@);
            }
        }
        assert(texts(prefs.projects@).subrange(0, i as int) =~= texts(prefs.projects@));
        state.clear_expansions();
        let mut j: usize = 0;
        while j < prefs.expansions.len()
            invariant
                state.wf(),
                j <= prefs.expansions.len(),
                state@.projects == texts(prefs.projects@).to_set(),
                state@.expansions == texts(prefs.expansions@).subrange(0, j as int).to_set(),
            decreases prefs.expansions.len() - j,
        {
            let ghost before = texts(prefs.expansions@).subrange(0, j as int);
            state.insert_expansion(prefs.expansions[j].clone());
            j += 1;
            proof {
                assert(texts(prefs.expansions@).subrange(0, j as int) =~= before.push(
                    prefs.expansions@[j - 1]@,
                ));
                before.lemma_push_to_set_commute(prefs.expansions@[j - 1]@);
            }
        }
        assert(texts(prefs.expansions@).subrange(0, j as int) =~= texts(prefs.expansions@));
        state.set_selection(prefs.selection);
    }
}

/// Reading back the snapshot of a state restores its projects, its
/// expansions and its selection, whatever the state read into held before.
pub proof fn lemma_snapshot_round_trip(state: State, prefs: Prefs)
    requires
        state.wf(),
        is_snapshot(prefs, state),
    ensures
        restored(prefs) == state@,
{
    state.lemma_orders();
}

/// Two snapshots of one unchanged state give the same document.
pub proof fn lemma_save_idempotent(state: State, first: Prefs, second: Prefs)
    requires
        is_snapshot(first, state),
        is_snapshot(second, state),
    ensures
        prefs_text(first) == prefs_text(second),
{
}

} // verus!
