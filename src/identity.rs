use vstd::prelude::*;
use vstd::string::StrSliceExecFns;
use crate::error::LaunchError;
use crate::text::append;

verus! {

/// Name of the directory, under the user's home, that holds the container image.
pub const ROOTFS_DIR: &'static str = "rootfs-x86_64";

pub open spec fn is_digit(c: char) -> bool {
    '0' <= c && c <= '9'
}

/// The number written by a sequence of decimal digits.
pub open spec fn digits_value(s: Seq<char>) -> int
    decreases s.len(),
{
    if s.len() == 0 {
        0
    } else {
        digits_value(s.drop_last()) * 10 + (s.last() as int - '0' as int)
    }
}

/// The digits of a user identifier, after an optional leading `+`.
pub open spec fn uid_digits(s: Seq<char>) -> Seq<char> {
    if s.len() > 0 && s[0] == '+' {
        s.skip(1)
    } else {
        s
    }
}

/// `s` writes a user identifier: an optional `+`, then one or more decimal
/// digits whose value fits in 32 bits.
pub open spec fn is_uid_text(s: Seq<char>) -> bool {
    let d = uid_digits(s);
    &&& d.len() > 0
    &&& forall|i: int| 0 <= i < d.len() ==> is_digit(#[trigger] d[i])
    &&& digits_value(d) <= u32::MAX
}

/// The identity whose home holds the container image: the override when one
/// is given, the real user otherwise.
pub open spec fn chosen_identity(override_uid: Option<Seq<char>>, real_uid: u32) -> Result<u32, LaunchError> {
    match override_uid {
        None => Ok(real_uid),
        Some(s) => if is_uid_text(s) {
            Ok(digits_value(uid_digits(s)) as u32)
        } else {
            Err(LaunchError::Identity)
        },
    }
}

/// `home` joined with `name`, with one separator between them unless `home`
/// is empty or already ends with one.
pub open spec fn joined_path(home: Seq<char>, name: Seq<char>) -> Seq<char> {
    if home.len() == 0 || home.last() == '/' {
        home + name
    } else {
        home + seq!['/'] + name
    }
}

proof fn lemma_digits_value_nonneg(s: Seq<char>)
    requires
        forall|i: int| 0 <= i < s.len() ==> is_digit(#[trigger] s[i]),
    ensures
        digits_value(s) >= 0,
    decreases s.len(),
{
    if s.len() > 0 {
        lemma_digits_value_nonneg(s.drop_last());
        assert(is_digit(s[s.len() - 1]));
    }
}

proof fn lemma_digits_value_grows(s: Seq<char>, j: int)
    requires
        0 <= j <= s.len(),
        forall|i: int| 0 <= i < s.len() ==> is_digit(#[trigger] s[i]),
    ensures
        digits_value(s.subrange(0, j)) <= digits_value(s),
    decreases s.len() - j,
{
    if j < s.len() {
        lemma_digits_value_grows(s, j + 1);
        let p = s.subrange(0, j + 1);
        assert(p.drop_last() =~= s.subrange(0, j));
        assert(is_digit(p.last()));
        lemma_digits_value_nonneg(s.subrange(0, j));
        assert(digits_value(p) == digits_value(s.subrange(0, j)) * 10 + (p.last() as int - '0' as int));
    } else {
        assert(s.subrange(0, j) =~= s);
    }
}

/// Reads a user identifier written in decimal, as `str::parse::<u32>` does:
/// an optional `+` and at least one digit, with a value that fits in 32 bits.
pub fn parse_uid(s: &str) -> (r: Option<u32>)
    ensures
        r is Some <==> is_uid_text(s@),
        r is Some ==> r->0 as int == digits_value(uid_digits(s@)),
{
    let n = s.unicode_len();
    let mut i: usize = 0;
    if n > 0 && s.get_char(0) == '+' {
        i = 1;
    }
    let start = i;
    let ghost d = uid_digits(s@);
    assert(d =~= s@.subrange(start as int, n as int));
    if i == n {
        return None;
    }
    let mut acc: u64 = 0;
    while i < n
        invariant
            start <= i <= n,
            n == s@.len(),
            d == s@.subrange(start as int, n as int),
            d == uid_digits(s@),
            forall|k: int| 0 <= k < i - start ==> is_digit(#[trigger] d[k]),
            acc as int == digits_value(d.subrange(0, i - start)),
            acc <= u32::MAX,
        decreases n - i,
    {
        let c = s.get_char(i);
        assert(d[i - start] == c);
        if c < '0' || c > '9' {
            assert(!is_digit(d[i - start]));
            return None;
        }
        let ghost prev = d.subrange(0, i - start);
        acc = acc * 10 + (c as u64 - '0' as u64);
        i = i + 1;
        assert(d.subrange(0, i - start).drop_last() =~= prev);
        assert(d.subrange(0, i - start).last() == c);
        if acc > 0xffff_ffff {
            proof {
                if forall|k: int| 0 <= k < d.len() ==> is_digit(#[trigger] d[k]) {
                    lemma_digits_value_grows(d, i - start);
                }
            }
            return None;
        }
    }
    assert(d.subrange(0, n - start) =~= d);
    Some(acc as u32)
}

/// Picks the identity whose home holds the container image: the override
/// identity when one is present, the real user's identity otherwise.
pub fn choose_identity(override_uid: Option<&str>, real_uid: u32) -> (r: Result<u32, LaunchError>)
    ensures
        r == chosen_identity(
            match override_uid {
                Some(s) => Some(s@),
                None => None,
            },
            real_uid,
        ),
{
    match override_uid {
        None => Ok(real_uid),
        Some(s) => match parse_uid(s) {
            Some(u) => Ok(u),
            None => Err(LaunchError::Identity),
        },
    }
}

/// The container image path under a user's home directory.
pub fn rootfs_path(home: &str) -> (r: String)
    ensures
        r@ == joined_path(home@, ROOTFS_DIR@),
{
    let mut path = home.to_owned();
    let n = home.unicode_len();
    if n > 0 && home.get_char(n - 1) != '/' {
        append(&mut path, "/");
        proof {
            reveal_strlit("/");
        }
    }
    append(&mut path, ROOTFS_DIR);
    path
}

/// Resolves the container image path from the home directory that the
/// chosen identity's user record gives, if any record was found.
pub fn rootfs_for_home(home: Option<&str>) -> (r: Result<String, LaunchError>)
    ensures
        home is None ==> r == Err::<String, LaunchError>(LaunchError::Identity),
        home is Some ==> r is Ok && r->Ok_0@ == joined_path(home->0@, ROOTFS_DIR@),
{
    match home {
        Some(h) => Ok(rootfs_path(h)),
        None => Err(LaunchError::Identity),
    }
}

/// The container image is looked up under the override identity's home when
/// an override is present, under the real user's home otherwise, and lies in
/// the image directory right under that home.
pub proof fn lemma_rootfs_follows_override(override_uid: Seq<char>, real_uid: u32, home: Seq<char>)
    requires
        is_uid_text(override_uid),
        home.len() > 0,
        home.last() != '/',
    ensures
        chosen_identity(Some(override_uid), real_uid) == Ok::<u32, LaunchError>(
            digits_value(uid_digits(override_uid)) as u32,
        ),
        chosen_identity(None, real_uid) == Ok::<u32, LaunchError>(real_uid),
        joined_path(home, ROOTFS_DIR@) == home + seq!['/'] + ROOTFS_DIR@,
{
}

} // verus!
