use vstd::prelude::*;

verus! {

/// The verbatim prefix `\\?\` that namespaced absolute paths start with.
pub open spec fn verbatim_prefix() -> Seq<char> {
    seq!['\\', '\\', '?', '\\']
}

/// Whether `p` is a verbatim drive path that can be rewritten: the prefix,
/// one drive character and a colon. Other verbatim forms, such as
/// `\\?\UNC\server\share`, are not drive paths.
pub open spec fn is_verbatim_drive_path(p: Seq<char>) -> bool {
    p.len() >= 6 && p.subrange(0, 4) == verbatim_prefix() && p[5] == ':'
}

/// `s` with every backslash turned into a slash.
pub open spec fn forward_slashes(s: Seq<char>) -> Seq<char> {
    s.map_values(|c: char| if c == '\\' { '/' } else { c })
}

/// The form of a canonical host path that serves both as a bind-mount source
/// and as a path inside the container. Where verbatim paths occur,
/// `\\?\C:\a\b` becomes `/C/a/b`; any other path is kept as it is.
pub open spec fn os_path(p: Seq<char>, verbatim_paths: bool) -> Seq<char> {
    if verbatim_paths && is_verbatim_drive_path(p) {
        seq!['/', p[4]] + forward_slashes(p.subrange(6, p.len() as int))
    } else {
        p
    }
}

/// Rewriting a path into its container form a second time changes nothing.
pub proof fn lemma_os_path_idempotent(p: Seq<char>, verbatim_paths: bool)
    ensures
        os_path(os_path(p, verbatim_paths), verbatim_paths) == os_path(p, verbatim_paths),
        !verbatim_paths ==> os_path(p, verbatim_paths) == p,
{
    let q = os_path(p, verbatim_paths);
    if verbatim_paths && is_verbatim_drive_path(p) {
        if q.len() >= 6 {
            assert(q.subrange(0, 4)[0] == q[0]);
        }
    }
}

/// Rewrites a path that the file system has already canonicalized into the
/// form used for the working-directory binding. `verbatim_paths` says whether
/// the platform produces verbatim `\\?\` paths.
pub fn canonicalize_os_path(canonical: &str, verbatim_paths: bool) -> (r: String)
    ensures
        r@ == os_path(canonical@, verbatim_paths),
{
    let n: usize = canonical.unicode_len();
    if verbatim_paths && n >= 6 && canonical.get_char(0) == '\\' && canonical.get_char(1) == '\\'
        && canonical.get_char(2) == '?' && canonical.get_char(3) == '\\' && canonical.get_char(5) == ':' {
        let p = Ghost(canonical@);
        assert(p@.subrange(0, 4) =~= verbatim_prefix());
        proof {
            reveal_strlit("/");
        }
        let mut out = String::from_str("/");
        out.append(canonical.substring_char(4, 5));
        assert(p@.subrange(6, 6) =~= Seq::<char>::empty());
        assert(out@ =~= seq!['/', p@[4]] + forward_slashes(p@.subrange(6, 6)));
        let mut i: usize = 6;
        while i < n
            invariant
                n == p@.len(),
                p@ == canonical@,
                6 <= i <= n,
                out@ == seq!['/', p@[4]] + forward_slashes(p@.subrange(6, i as int)),
            decreases n - i,
        {
            let c = canonical.get_char(i);
            let ghost before = out@;
            if c == '\\' {
                proof {
                    reveal_strlit("/");
                }
                out.append("/");
            } else {
                let piece = canonical.substring_char(i, i + 1);
                assert(piece@ =~= seq![c]);
                out.append(piece);
            }
            assert(p@.subrange(6, i + 1) =~= p@.subrange(6, i as int).push(c));
            assert(forward_slashes(p@.subrange(6, i + 1)) =~= forward_slashes(
                p@.subrange(6, i as int),
            ).push(if c == '\\' { '/' } else { c }));
            assert(out@ =~= before.push(if c == '\\' { '/' } else { c }));
            assert(out@ =~= seq!['/', p@[4]] + forward_slashes(p@.subrange(6, i + 1)));
            i = i + 1;
        }
        assert(out@ =~= os_path(canonical@, verbatim_paths));
        out
    } else {
        proof {
            if verbatim_paths && n >= 6 && canonical@[5] == ':' {
                assert(canonical@.subrange(0, 4) != verbatim_prefix()) by {
                    if canonical@.subrange(0, 4) == verbatim_prefix() {
                        assert(canonical@[0] == canonical@.subrange(0, 4)[0]);
                        assert(canonical@[1] == canonical@.subrange(0, 4)[1]);
                        assert(canonical@[2] == canonical@.subrange(0, 4)[2]);
                        assert(canonical@[3] == canonical@.subrange(0, 4)[3]);
                    }
                }
            }
        }
        String::from_str(canonical)
    }
}

} // verus!
