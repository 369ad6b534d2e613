//! Where the journals and Discord's pipe are.

use vstd::prelude::*;

verus! {

/// The path of `name` in the directory `base`: a separator is put between the
/// two unless `base` is empty or already ends with one.
pub open spec fn joined(base: Seq<char>, name: Seq<char>) -> Seq<char> {
    if base.len() == 0 || base.last() == '/' {
        base + name
    } else {
        base + "/"@ + name
    }
}

/// The path of `name` in the directory `base`.
pub fn join_path(base: &str, name: &str) -> (path: String)
    ensures
        path@ == joined(base@, name@),
{
    proof {
        reveal_strlit("/");
    }
    let n = base.unicode_len();
    let mut path = String::from_str(base);
    if n > 0 && base.get_char(n - 1) != '/' {
        path.append("/");
    }
    path.append(name);
    path
}

/// The directory where Discord puts its pipe: the runtime directory if one is
/// set, else "/tmp".
pub open spec fn ipc_base(runtime_dir: Option<String>) -> Seq<char> {
    match runtime_dir {
        Some(d) => d@,
        None => "/tmp"@,
    }
}

/// The path of Discord's first pipe, in the runtime directory (`runtime_dir`,
/// if one is set) or else in "/tmp".
pub fn get_discord_ipc_pipe(runtime_dir: Option<String>) -> (path: String)
    ensures
        path@ == joined(ipc_base(runtime_dir), "discord-ipc-0"@),
{
    let base = match runtime_dir {
        Some(d) => d,
        None => String::from_str("/tmp"),
    };
    join_path(base.as_str(), "discord-ipc-0")
}

/// The bytes of ".log".
pub open spec fn log_suffix() -> Seq<u8> {
    seq![46u8, 108u8, 111u8, 103u8]
}

/// A file name whose extension is "log": it ends with ".log", after at least
/// one other byte.
pub open spec fn is_log_name(name: Seq<u8>) -> bool {
    name.len() > 4 && name.subrange(name.len() - 4, name.len() as int) == log_suffix()
}

/// Byte-wise lexicographic order: `a` comes before `b`, or is `b`.
pub open spec fn lex_le(a: Seq<u8>, b: Seq<u8>) -> bool
    decreases a.len(),
{
    if a.len() == 0 {
        true
    } else if b.len() == 0 {
        false
    } else if a[0] != b[0] {
        a[0] < b[0]
    } else {
        lex_le(a.drop_first(), b.drop_first())
    }
}

/// Any two byte strings are ordered one way or the other.
pub proof fn lemma_lex_total(a: Seq<u8>, b: Seq<u8>)
    ensures
        lex_le(a, b) || lex_le(b, a),
    decreases a.len(),
{
    if a.len() > 0 && b.len() > 0 && a[0] == b[0] {
        lemma_lex_total(a.drop_first(), b.drop_first());
    }
}

/// The order is transitive.
pub proof fn lemma_lex_transitive(a: Seq<u8>, b: Seq<u8>, c: Seq<u8>)
    requires
        lex_le(a, b),
        lex_le(b, c),
    ensures
        lex_le(a, c),
    decreases a.len(),
{
    if a.len() > 0 && b.len() > 0 && c.len() > 0 && a[0] == b[0] && b[0] == c[0] {
        lemma_lex_transitive(a.drop_first(), b.drop_first(), c.drop_first());
    }
}

/// Two byte strings ordered both ways are equal.
pub proof fn lemma_lex_antisymmetric(a: Seq<u8>, b: Seq<u8>)
    requires
        lex_le(a, b),
        lex_le(b, a),
    ensures
        a == b,
    decreases a.len(),
{
    if a.len() > 0 && b.len() > 0 {
        lemma_lex_antisymmetric(a.drop_first(), b.drop_first());
        assert(a =~= seq![a[0]] + a.drop_first());
        assert(b =~= seq![b[0]] + b.drop_first());
    } else {
        assert(a =~= b);
    }
}

fn lex_less_eq(a: &Vec<u8>, b: &Vec<u8>) -> (le: bool)
    ensures
        le == lex_le(a@, b@),
{
    let mut i: usize = 0;
    proof {
        assert(a@.skip(0) =~= a@);
        assert(b@.skip(0) =~= b@);
    }
    while i < a.len() && i < b.len()
        invariant
            i <= a@.len(),
            i <= b@.len(),
            lex_le(a@, b@) == lex_le(a@.skip(i as int), b@.skip(i as int)),
        decreases a@.len() - i,
    {
        if a[i] != b[i] {
            return a[i] < b[i];
        }
        proof {
            assert(a@.skip(i as int).drop_first() =~= a@.skip(i + 1));
            assert(b@.skip(i as int).drop_first() =~= b@.skip(i + 1));
        }
        i = i + 1;
    }
    a.len() <= b.len()
}

fn is_log_file(name: &Vec<u8>) -> (log: bool)
    ensures
        log == is_log_name(name@),
{
    let n = name.len();
    if n <= 4 {
        return false;
    }
    let log = name[n - 4] == 46u8 && name[n - 3] == 108u8 && name[n - 2] == 111u8 && name[n - 1]
        == 103u8;
    proof {
        let tail = name@.subrange(n - 4, n as int);
        if log {
            assert(tail =~= log_suffix());
        } else {
            if tail == log_suffix() {
                assert(tail[0] == name@[n - 4]);
                assert(tail[1] == name@[n - 3]);
                assert(tail[2] == name@[n - 2]);
                assert(tail[3] == name@[n - 1]);
            }
        }
    }
    log
}

/// Picks the latest journal among the file names of the journals' directory:
/// of the names whose extension is "log", the greatest in byte order (the last
/// of them, if two are equal). `None` where no name has that extension.
pub fn get_last_journal(names: &Vec<Vec<u8>>) -> (last: Option<usize>)
    ensures
        last is None <==> forall|i: int| 0 <= i < names@.len() ==> !is_log_name(#[trigger] names@[i]@),
        last matches Some(k) ==> {
            &&& k < names@.len()
            &&& is_log_name(names@[k as int]@)
            &&& forall|i: int|
                0 <= i < names@.len() && is_log_name(#[trigger] names@[i]@) ==> lex_le(
                    names@[i]@,
                    names@[k as int]@,
                )
        },
{
    let mut best: Option<usize> = None;
    let mut i: usize = 0;
    while i < names.len()
        invariant
            i <= names@.len(),
            best is None <==> forall|j: int| 0 <= j < i ==> !is_log_name(#[trigger] names@[j]@),
            best matches Some(k) ==> {
                &&& k < i
                &&& is_log_name(names@[k as int]@)
                &&& forall|j: int|
                    0 <= j < i && is_log_name(#[trigger] names@[j]@) ==> lex_le(
                        names@[j]@,
                        names@[k as int]@,
                    )
            },
        decreases names@.len() - i,
    {
        if is_log_file(&names[i]) {
            match best {
                None => {
                    best = Some(i);
                    proof {
                        assert(lex_le(names@[i as int]@, names@[i as int]@)) by {
                            lemma_lex_total(names@[i as int]@, names@[i as int]@);
                        }
                    }
                },
                Some(k) => {
                    if lex_less_eq(&names[k], &names[i]) {
                        best = Some(i);
                        proof {
                            assert forall|j: int|
                                0 <= j < i + 1 && is_log_name(#[trigger] names@[j]@) implies lex_le(
                                names@[j]@,
                                names@[i as int]@,
                            ) by {
                                if j < i {
                                    lemma_lex_transitive(
                                        names@[j]@,
                                        names@[k as int]@,
                                        names@[i as int]@,
                                    );
                                } else {
                                    lemma_lex_total(names@[i as int]@, names@[i as int]@);
                                }
                            }
                        }
                    } else {
                        proof {
                            lemma_lex_total(names@[k as int]@, names@[i as int]@);
                        }
                    }
                },
            }
        }
        i = i + 1;
    }
    best
}

} // verus!
