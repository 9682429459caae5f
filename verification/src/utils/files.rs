//! The pure rules for names and paths under the user's SSH directory:
//! which directory entries are public keys, how a key name relates to its
//! file names, and how known-hosts lines are reduced to host names.
//!
//! Reading and deleting the files themselves is the caller's business;
//! every function here maps plain values to plain values.

use vstd::prelude::*;
use vstd::string::StrSliceExecFns;
use vstd::string::StringExecFns;

verus! {

/// Whether a file name is a public-key name: it ends in `.pub`.
pub open spec fn is_pub_key_name(s: Seq<char>) -> bool {
    s.len() >= 4 && s.subrange(s.len() - 4, s.len() as int) == ".pub"@
}

/// Whether the given file name ends in `.pub`.
pub fn ends_with_pub(name: &String) -> (r: bool)
    ensures
        r == is_pub_key_name(name@),
{
    let n = name.as_str().unicode_len();
    if n < 4 {
        return false;
    }
    let r = name.as_str().get_char(n - 4) == '.' && name.as_str().get_char(n - 3) == 'p'
        && name.as_str().get_char(n - 2) == 'u' && name.as_str().get_char(n - 1) == 'b';
    proof {
        reveal_strlit(".pub");
        if r {
            assert(name@.subrange(n - 4, n as int) =~= ".pub"@);
        } else {
            assert(name@.subrange(n - 4, n as int) != ".pub"@) by {
                if name@.subrange(n - 4, n as int) == ".pub"@ {
                    assert(name@[n - 4] == ".pub"@[0]);
                    assert(name@[n - 3] == ".pub"@[1]);
                    assert(name@[n - 2] == ".pub"@[2]);
                    assert(name@[n - 1] == ".pub"@[3]);
                }
            }
        }
    }
    r
}

/// The public-key names among the given directory entries, in order.
pub open spec fn spec_pub_key_names(entries: Seq<Seq<char>>) -> Seq<Seq<char>>
    decreases entries.len(),
{
    if entries.len() == 0 {
        Seq::empty()
    } else {
        let rest = spec_pub_key_names(entries.drop_last());
        if is_pub_key_name(entries.last()) {
            rest.push(entries.last())
        } else {
            rest
        }
    }
}

/// The character sequences of a list of strings.
pub open spec fn views_of(v: Seq<String>) -> Seq<Seq<char>> {
    v.map_values(|s: String| s@)
}

/// Keeps the directory entries that name a public key, preserving their
/// order.
pub fn pub_key_names(entries: &Vec<String>) -> (r: Vec<String>)
    ensures
        views_of(r@) == spec_pub_key_names(views_of(entries@)),
{
    let mut out: Vec<String> = Vec::new();
    let n = entries.len();
    for i in 0..n
        invariant
            n == entries@.len(),
            views_of(out@) == spec_pub_key_names(views_of(entries@.take(i as int))),
    {
        proof {
            assert(views_of(entries@.take(i + 1)).drop_last() =~= views_of(
                entries@.take(i as int),
            ));
            assert(views_of(entries@.take(i + 1)).last() == entries@[i as int]@);
        }
        if ends_with_pub(&entries[i]) {
            out.push(entries[i].clone());
            proof {
                assert(views_of(out@) =~= spec_pub_key_names(views_of(entries@.take(i + 1))));
            }
        } else {
            proof {
                assert(views_of(out@) =~= spec_pub_key_names(views_of(entries@.take(i + 1))));
            }
        }
    }
    proof {
        assert(entries@.take(n as int) =~= entries@);
    }
    out
}

/// The position of the first space in `s`, or `s.len()` when there is none.
pub open spec fn first_space_idx(s: Seq<char>) -> int
    decreases s.len(),
{
    if s.len() == 0 {
        0
    } else if s[0] == ' ' {
        0
    } else {
        1 + first_space_idx(s.drop_first())
    }
}

/// The host-name part of a known-hosts line: what stands before the first
/// space. A line without any space carries no host name.
pub open spec fn spec_line_host(s: Seq<char>) -> Option<Seq<char>> {
    if first_space_idx(s) < s.len() {
        Some(s.take(first_space_idx(s)))
    } else {
        None
    }
}

proof fn lemma_first_space_at(s: Seq<char>, i: int)
    requires
        0 <= i < s.len(),
        s[i] == ' ',
        forall|j: int| 0 <= j < i ==> s[j] != ' ',
    ensures
        first_space_idx(s) == i,
    decreases s.len(),
{
    if i > 0 {
        lemma_first_space_at(s.drop_first(), i - 1);
    }
}

proof fn lemma_first_space_none(s: Seq<char>)
    requires
        forall|j: int| 0 <= j < s.len() ==> s[j] != ' ',
    ensures
        first_space_idx(s) == s.len(),
    decreases s.len(),
{
    if s.len() > 0 {
        lemma_first_space_none(s.drop_first());
    }
}

/// Extracts the host name of one known-hosts line: the text before the
/// first space, or nothing when the line has no space.
pub fn line_host(line: &String) -> (r: Option<String>)
    ensures
        r is Some <==> spec_line_host(line@) is Some,
        r matches Some(h) ==> spec_line_host(line@) == Some(h@),
{
    let n = line.as_str().unicode_len();
    let mut i: usize = 0;
    while i < n && line.as_str().get_char(i) != ' '
        invariant
            n == line@.len(),
            i <= n,
            forall|j: int| 0 <= j < i ==> line@[j] != ' ',
        decreases n - i,
    {
        i = i + 1;
    }
    if i < n {
        let r = line.as_str().substring_char(0, i).to_owned();
        proof {
            lemma_first_space_at(line@, i as int);
            assert(line@.subrange(0, i as int) =~= line@.take(i as int));
        }
        Some(r)
    } else {
        proof {
            lemma_first_space_none(line@);
        }
        None
    }
}

/// The host names of the given known-hosts lines, in order of first
/// appearance, without repetitions.
pub open spec fn spec_hostnames(lines: Seq<Seq<char>>) -> Seq<Seq<char>>
    decreases lines.len(),
{
    if lines.len() == 0 {
        Seq::empty()
    } else {
        let prev = spec_hostnames(lines.drop_last());
        match spec_line_host(lines.last()) {
            Option::None => prev,
            Option::Some(h) => if prev.contains(h) {
                prev
            } else {
                prev.push(h)
            },
        }
    }
}

/// Whether one of the strings in `v` has exactly the characters of `target`.
fn contains_string(v: &Vec<String>, target: &String) -> (r: bool)
    ensures
        r == views_of(v@).contains(target@),
{
    let n = v.len();
    for i in 0..n
        invariant
            n == v@.len(),
            forall|j: int| 0 <= j < i ==> v@[j]@ != target@,
    {
        if v[i].eq(target) {
            proof {
                assert(views_of(v@)[i as int] == target@);
            }
            return true;
        }
    }
    proof {
        if views_of(v@).contains(target@) {
            let k = choose|k: int| 0 <= k < views_of(v@).len() && views_of(v@)[k] == target@;
            assert(v@[k]@ == target@);
        }
    }
    false
}

/// Reduces known-hosts lines to the host names they start with, keeping
/// the first occurrence of each name and dropping repetitions.
pub fn hostnames_from_lines(lines: &Vec<String>) -> (r: Vec<String>)
    ensures
        views_of(r@) == spec_hostnames(views_of(lines@)),
{
    let mut out: Vec<String> = Vec::new();
    let n = lines.len();
    for i in 0..n
        invariant
            n == lines@.len(),
            views_of(out@) == spec_hostnames(views_of(lines@.take(i as int))),
    {
        proof {
            assert(views_of(lines@.take(i + 1)).drop_last() =~= views_of(lines@.take(i as int)));
            assert(views_of(lines@.take(i + 1)).last() == lines@[i as int]@);
        }
        match line_host(&lines[i]) {
            Option::Some(host) => {
                if !contains_string(&out, &host) {
                    out.push(host);
                }
                proof {
                    assert(views_of(out@) =~= spec_hostnames(views_of(lines@.take(i + 1))));
                }
            },
            Option::None => {
                proof {
                    assert(views_of(out@) =~= spec_hostnames(views_of(lines@.take(i + 1))));
                }
            },
        }
    }
    proof {
        assert(lines@.take(n as int) =~= lines@);
    }
    out
}

/// The position after the last dot of `s`, minus one; `-1` when `s` has no
/// dot at all.
pub open spec fn last_dot_idx(s: Seq<char>) -> int
    decreases s.len(),
{
    if s.len() == 0 {
        -1
    } else if s.last() == '.' {
        s.len() - 1
    } else {
        last_dot_idx(s.drop_last())
    }
}

/// The stem of a key file name: everything before the last dot, except
/// that a name whose only dot is the leading one keeps it (a hidden file
/// has no extension).
pub open spec fn spec_file_stem(s: Seq<char>) -> Seq<char> {
    if last_dot_idx(s) > 0 {
        s.take(last_dot_idx(s))
    } else {
        s
    }
}

proof fn lemma_last_dot_at(s: Seq<char>, i: int)
    requires
        0 <= i < s.len(),
        s[i] == '.',
        forall|j: int| i < j < s.len() ==> s[j] != '.',
    ensures
        last_dot_idx(s) == i,
    decreases s.len(),
{
    if i < s.len() - 1 {
        lemma_last_dot_at(s.drop_last(), i);
    }
}

proof fn lemma_last_dot_none(s: Seq<char>)
    requires
        forall|j: int| 0 <= j < s.len() ==> s[j] != '.',
    ensures
        last_dot_idx(s) == -1,
    decreases s.len(),
{
    if s.len() > 0 {
        lemma_last_dot_none(s.drop_last());
    }
}

/// The file stem of a key file name: `ed25519_key.pub` becomes
/// `ed25519_key`, a name without an extension stays as it is.
pub fn key_file_stem(name: &String) -> (r: String)
    ensures
        r@ == spec_file_stem(name@),
{
    let n = name.as_str().unicode_len();
    let mut i: usize = n;
    let mut cut: usize = 0;
    let mut found = false;
    while i > 0
        invariant_except_break
            !found,
        invariant
            n == name@.len(),
            i <= n,
            !found ==> forall|j: int| i <= j < n ==> name@[j] != '.',
            found ==> cut < n && name@[cut as int] == '.' && forall|j: int|
                cut < j < n ==> name@[j] != '.',
        ensures
            found ==> cut < n && name@[cut as int] == '.' && forall|j: int|
                cut < j < n ==> name@[j] != '.',
            !found ==> forall|j: int| 0 <= j < n ==> name@[j] != '.',
        decreases i,
    {
        if name.as_str().get_char(i - 1) == '.' {
            found = true;
            cut = i - 1;
            break;
        }
        i = i - 1;
    }
    if found && cut > 0 {
        let r = name.as_str().substring_char(0, cut).to_owned();
        proof {
            lemma_last_dot_at(name@, cut as int);
            assert(name@.subrange(0, cut as int) =~= name@.take(cut as int));
        }
        r
    } else {
        proof {
            if found {
                lemma_last_dot_at(name@, cut as int);
            } else {
                lemma_last_dot_none(name@);
            }
        }
        name.clone()
    }
}

/// Joins a directory path and a file name with a path separator.
pub fn join_path(dir: &String, name: &String) -> (r: String)
    ensures
        r@ == dir@ + "/"@ + name@,
{
    let r = dir.clone();
    let r = r.concat("/");
    let r = r.concat(name.as_str());
    r
}

/// The file that holds the public half of a key: the name itself when it
/// already ends in `.pub`, otherwise the name with `.pub` appended.
pub fn pub_key_file_name(name: &String) -> (r: String)
    ensures
        is_pub_key_name(name@) ==> r@ == name@,
        !is_pub_key_name(name@) ==> r@ == name@ + ".pub"@,
{
    if ends_with_pub(name) {
        name.clone()
    } else {
        name.clone().concat(".pub")
    }
}

/// The two files of a key pair named `private_key_name` under `ssh_dir`:
/// the private file and its `.pub` counterpart.
pub fn key_pair_paths(ssh_dir: &String, private_key_name: &String) -> (r: (String, String))
    ensures
        r.0@ == ssh_dir@ + "/"@ + private_key_name@,
        r.1@ == ssh_dir@ + "/"@ + private_key_name@ + ".pub"@,
{
    let private_path = join_path(ssh_dir, private_key_name);
    let public_path = private_path.clone().concat(".pub");
    (private_path, public_path)
}

} // verus!
