//! File-association planning for the wide-character platform family.
//!
//! Registering the script extension with the shell means writing a handful
//! of registry values and, optionally, amending the `PATHEXT` list. Only
//! the caller may touch the registry; this module decides exactly which
//! operations to perform, from plain inputs (the tool's executable path
//! and the current `PATHEXT` entries), and the caller executes them in
//! order.

use vstd::prelude::*;
use vstd::string::{StrSliceExecFns, StringExecFns};

verus! {

/// A file-association request.
#[derive(Clone, Copy, Debug, PartialEq, Eq, Structural)]
pub enum Args {
    Install { amend_pathext: bool },
    Uninstall,
}

/// One registry operation for the caller to perform.
#[derive(Debug, PartialEq, Eq)]
pub enum RegOp {
    /// Create `key` under the classes root if needed and set its default
    /// value to `value`.
    SetKeyDefault { key: String, value: String },
    /// Delete `key` under the classes root, ignoring a missing key.
    DeleteKey { key: String },
    /// Replace the machine environment's `PATHEXT` value with `value`.
    SetPathExt { value: String },
}

/// A path with the verbatim prefix removed: shells choke on the prefix,
/// so it must not reach the registry.
pub open spec fn stripped(s: Seq<char>) -> Seq<char> {
    if s.len() >= 4 && s.subrange(0, 4) == seq!['\\', '\\', '?', '\\'] {
        s.skip(4)
    } else {
        s
    }
}

/// Remove a leading verbatim prefix (two backslashes, a question mark and
/// a backslash) from a canonicalized executable path, if present.
pub fn strip_verbatim_prefix(s: &str) -> (r: String)
    ensures
        r@ == stripped(s@),
{
    let n = s.unicode_len();
    if n >= 4 && s.get_char(0) == '\\' && s.get_char(1) == '\\' && s.get_char(2) == '?'
        && s.get_char(3) == '\\' {
        proof {
            assert(s@.subrange(0, 4) =~= seq!['\\', '\\', '?', '\\']);
        }
        String::from_str(s.substring_char(4, n))
    } else {
        proof {
            if s@.len() >= 4 {
                assert(s@.subrange(0, 4) != seq!['\\', '\\', '?', '\\']);
            }
        }
        String::from_str(s)
    }
}

/// Whether one `PATHEXT` entry is the script extension, compared the way
/// the shell does: ASCII-case-insensitively.
pub open spec fn seg_is_crs(s: Seq<char>) -> bool {
    s.len() == 4 && s[0] == '.' && (s[1] == 'c' || s[1] == 'C') && (s[2] == 'r' || s[2] == 'R') && (
    s[3] == 's' || s[3] == 'S')
}

/// Whether any entry of a `PATHEXT` list is the script extension.
pub open spec fn mentions_crs(parts: Seq<Seq<char>>) -> bool {
    exists|i: int| 0 <= i < parts.len() && seg_is_crs(parts[i])
}

/// The views of a list of owned strings.
pub open spec fn seg_views(parts: Seq<String>) -> Seq<Seq<char>> {
    parts.map_values(|p: String| p@)
}

fn seg_is_crs_exec(s: &String) -> (b: bool)
    ensures
        b == seg_is_crs(s@),
{
    let st = s.as_str();
    st.unicode_len() == 4 && st.get_char(0) == '.' && (st.get_char(1) == 'c' || st.get_char(1)
        == 'C') && (st.get_char(2) == 'r' || st.get_char(2) == 'R') && (st.get_char(3) == 's'
        || st.get_char(3) == 'S')
}

/// Whether the current `PATHEXT` entries already register the script
/// extension, in any ASCII case.
pub fn pathext_mentions_crs(parts: &Vec<String>) -> (b: bool)
    ensures
        b == mentions_crs(seg_views(parts@)),
{
    let mut i: usize = 0;
    while i < parts.len()
        invariant
            i <= parts@.len(),
            forall|j: int| 0 <= j < i ==> !seg_is_crs(seg_views(parts@)[j]),
        decreases parts@.len() - i,
    {
        if seg_is_crs_exec(&parts[i]) {
            assert(seg_is_crs(seg_views(parts@)[i as int]));
            return true;
        }
        i = i + 1;
    }
    false
}

/// `PATHEXT` entries rejoined into the single `;`-separated value the
/// environment stores.
pub open spec fn join_semis(parts: Seq<Seq<char>>) -> Seq<char>
    decreases parts.len(),
{
    if parts.len() == 0 {
        Seq::empty()
    } else if parts.len() == 1 {
        parts[0]
    } else {
        join_semis(parts.drop_last()) + seq![';'] + parts.last()
    }
}

/// The entries that are not the script extension, in their original order.
pub open spec fn non_crs(parts: Seq<Seq<char>>) -> Seq<Seq<char>>
    decreases parts.len(),
{
    if parts.len() == 0 {
        Seq::empty()
    } else {
        non_crs(parts.drop_last()) + if seg_is_crs(parts.last()) {
            Seq::empty()
        } else {
            seq![parts.last()]
        }
    }
}

/// Rejoin all entries with `;`, restoring the stored `PATHEXT` value.
pub fn join_pathext(parts: &Vec<String>) -> (r: String)
    ensures
        r@ == join_semis(seg_views(parts@)),
{
    proof {
        reveal_strlit(";");
        assert(";"@ =~= seq![';']);
    }
    let mut r = String::new();
    let mut i: usize = 0;
    while i < parts.len()
        invariant
            i <= parts@.len(),
            r@ == join_semis(seg_views(parts@.subrange(0, i as int))),
        decreases parts@.len() - i,
    {
        proof {
            let pre = seg_views(parts@.subrange(0, i as int));
            let cur = seg_views(parts@.subrange(0, i + 1));
            assert(cur.drop_last() =~= pre);
            assert(cur.last() == parts@[i as int]@);
        }
        if i > 0 {
            r.append(";");
        }
        r.append(parts[i].as_str());
        i = i + 1;
        proof {
            reveal_strlit(";");
            assert(";"@ =~= seq![';']);
            assert(r@ =~= join_semis(seg_views(parts@.subrange(0, i as int))));
        }
    }
    proof {
        assert(parts@.subrange(0, parts@.len() as int) =~= parts@);
    }
    r
}

/// The `PATHEXT` value with every script-extension entry removed: the
/// remaining entries, in order, rejoined with `;`.
pub fn pathext_without_crs(parts: &Vec<String>) -> (r: String)
    ensures
        r@ == join_semis(non_crs(seg_views(parts@))),
{
    proof {
        reveal_strlit(";");
        assert(";"@ =~= seq![';']);
    }
    let mut r = String::new();
    let mut any_kept = false;
    let mut i: usize = 0;
    while i < parts.len()
        invariant
            i <= parts@.len(),
            any_kept == (non_crs(seg_views(parts@.subrange(0, i as int))).len() != 0),
            r@ == join_semis(non_crs(seg_views(parts@.subrange(0, i as int)))),
        decreases parts@.len() - i,
    {
        proof {
            let pre = seg_views(parts@.subrange(0, i as int));
            let cur = seg_views(parts@.subrange(0, i + 1));
            assert(cur.drop_last() =~= pre);
            assert(cur.last() == parts@[i as int]@);
        }
        let keep = !seg_is_crs_exec(&parts[i]);
        if keep {
            if any_kept {
                r.append(";");
            }
            r.append(parts[i].as_str());
            any_kept = true;
        }
        i = i + 1;
        proof {
            let pre = seg_views(parts@.subrange(0, i - 1));
            let cur = seg_views(parts@.subrange(0, i as int));
            reveal_strlit(";");
            assert(";"@ =~= seq![';']);
            assert(cur.drop_last() =~= pre);
            let k = non_crs(pre);
            if !keep {
                assert(non_crs(cur) =~= k);
                assert(r@ =~= join_semis(non_crs(cur)));
            } else {
                let x = cur.last();
                assert(non_crs(cur) =~= k.push(x));
                assert(non_crs(cur).drop_last() =~= k);
                assert(non_crs(cur).last() == x);
                if k.len() == 0 {
                    assert(non_crs(cur).len() == 1);
                    assert(join_semis(non_crs(cur)) == non_crs(cur)[0]);
                    assert(r@ =~= join_semis(non_crs(cur)));
                } else {
                    assert(join_semis(non_crs(cur)) == join_semis(non_crs(cur).drop_last())
                        + seq![';'] + x);
                    assert(join_semis(non_crs(cur).drop_last()) == join_semis(k));
                    assert(r@ =~= join_semis(non_crs(cur)));
                }
            }
        }
    }
    proof {
        assert(parts@.subrange(0, parts@.len() as int) =~= parts@);
    }
    r
}

/// The shell command line that hands an opened script to the tool.
pub open spec fn command_value(exe: Seq<char>) -> Seq<char> {
    "\""@ + exe + "\" \"--\" \"%1\" %*"@
}

/// The `PATHEXT` value after appending the script extension.
pub open spec fn amended_pathext(parts: Seq<Seq<char>>) -> Seq<char> {
    join_semis(parts) + ";.CRS"@
}

/// `op` creates `key` and sets its default value to `value`.
pub open spec fn op_sets(op: RegOp, key: Seq<char>, value: Seq<char>) -> bool {
    op matches RegOp::SetKeyDefault { key: k, value: v } && k@ == key && v@ == value
}

/// `op` deletes `key`, ignoring a missing key.
pub open spec fn op_deletes(op: RegOp, key: Seq<char>) -> bool {
    op matches RegOp::DeleteKey { key: k } && k@ == key
}

/// `op` replaces the stored `PATHEXT` with `value`.
pub open spec fn op_sets_pathext(op: RegOp, value: Seq<char>) -> bool {
    op matches RegOp::SetPathExt { value: v } && v@ == value
}

/// The installation plan: the three class-registration values, in order,
/// the handler command naming the stripped executable path — and, exactly
/// when amending was requested and no entry already registers the
/// extension, the amended `PATHEXT` as a fourth operation.
pub open spec fn install_ops_ok(
    ops: Seq<RegOp>,
    amend: bool,
    exe: Seq<char>,
    parts: Seq<Seq<char>>,
) -> bool {
    &&& ops.len() == if amend && !mentions_crs(parts) {
        4int
    } else {
        3int
    }
    &&& op_sets(ops[0], ".crs"@, "CargoScript.Crs"@)
    &&& op_sets(ops[1], "CargoScript.Crs"@, "Cargo Script"@)
    &&& op_sets(ops[2], "CargoScript.Crs\\shell\\open\\command"@, command_value(stripped(exe)))
    &&& (amend && !mentions_crs(parts) ==> op_sets_pathext(ops[3], amended_pathext(parts)))
}

/// The uninstallation plan: delete the four class keys innermost first —
/// and, exactly when some entry registers the extension, store the
/// `PATHEXT` that remains without it as a fifth operation.
pub open spec fn uninstall_ops_ok(ops: Seq<RegOp>, parts: Seq<Seq<char>>) -> bool {
    &&& ops.len() == if mentions_crs(parts) {
        5int
    } else {
        4int
    }
    &&& op_deletes(ops[0], "CargoScript.Crs\\shell\\open\\command"@)
    &&& op_deletes(ops[1], "CargoScript.Crs\\shell\\open"@)
    &&& op_deletes(ops[2], "CargoScript.Crs\\shell"@)
    &&& op_deletes(ops[3], "CargoScript.Crs"@)
    &&& (mentions_crs(parts) ==> op_sets_pathext(ops[4], join_semis(non_crs(parts))))
}

/// Plan an installation. `exe_path` is the canonicalized path of this
/// tool's executable as the caller read it (a verbatim prefix is stripped
/// here); `pathext` holds the current `PATHEXT` entries, already split on
/// `;`.
pub fn install_plan(amend: bool, exe_path: &str, pathext: &Vec<String>) -> (ops: Vec<RegOp>)
    ensures
        install_ops_ok(ops@, amend, exe_path@, seg_views(pathext@)),
{
    let mut ops: Vec<RegOp> = Vec::new();
    ops.push(
        RegOp::SetKeyDefault {
            key: String::from_str(".crs"),
            value: String::from_str("CargoScript.Crs"),
        },
    );
    ops.push(
        RegOp::SetKeyDefault {
            key: String::from_str("CargoScript.Crs"),
            value: String::from_str("Cargo Script"),
        },
    );
    let exe = strip_verbatim_prefix(exe_path);
    let command = String::from_str("\"").concat(exe.as_str()).concat("\" \"--\" \"%1\" %*");
    ops.push(
        RegOp::SetKeyDefault {
            key: String::from_str("CargoScript.Crs\\shell\\open\\command"),
            value: command,
        },
    );
    if amend && !pathext_mentions_crs(pathext) {
        let value = join_pathext(pathext).concat(";.CRS");
        ops.push(RegOp::SetPathExt { value });
    }
    ops
}

/// Plan an uninstallation from the current `PATHEXT` entries, already
/// split on `;`.
pub fn uninstall_plan(pathext: &Vec<String>) -> (ops: Vec<RegOp>)
    ensures
        uninstall_ops_ok(ops@, seg_views(pathext@)),
{
    let mut ops: Vec<RegOp> = Vec::new();
    ops.push(RegOp::DeleteKey { key: String::from_str("CargoScript.Crs\\shell\\open\\command") });
    ops.push(RegOp::DeleteKey { key: String::from_str("CargoScript.Crs\\shell\\open") });
    ops.push(RegOp::DeleteKey { key: String::from_str("CargoScript.Crs\\shell") });
    ops.push(RegOp::DeleteKey { key: String::from_str("CargoScript.Crs") });
    if pathext_mentions_crs(pathext) {
        let value = pathext_without_crs(pathext);
        ops.push(RegOp::SetPathExt { value });
    }
    ops
}

/// Plan a file-association request: the registry operations the caller
/// must perform, in order, for the given request, executable path and
/// current `PATHEXT` entries.
pub fn try_main(args: &Args, exe_path: &str, pathext: &Vec<String>) -> (ops: Vec<RegOp>)
    ensures
        (*args matches Args::Install { amend_pathext } ==> install_ops_ok(
            ops@,
            amend_pathext,
            exe_path@,
            seg_views(pathext@),
        )),
        *args is Uninstall ==> uninstall_ops_ok(ops@, seg_views(pathext@)),
{
    match args {
        Args::Install { amend_pathext } => install_plan(*amend_pathext, exe_path, pathext),
        Args::Uninstall => uninstall_plan(pathext),
    }
}

} // verus!
