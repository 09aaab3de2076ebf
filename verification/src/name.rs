//! Program names: how a program path is reduced to the name that is looked
//! up, and when that name matches a name stored in a catalog.

use vstd::prelude::*;
use crate::text::chars_of;

verus! {

/// The naming convention of the platform whose programs are analysed.
#[derive(Clone, Copy, Debug, PartialEq, Eq, Structural)]
pub enum Platform {
    /// `/` separates path components and names are compared exactly.
    Posix,
    /// `/` and `\` separate path components and ASCII letters are compared
    /// without regard to case.
    Windows,
}

impl Platform {
    /// Whether `c` separates the components of a path.
    pub open spec fn separates(self, c: char) -> bool {
        c == '/' || (self == Platform::Windows && c == '\\')
    }

    /// Whether names are compared without regard to the case of ASCII letters.
    pub open spec fn folds_case(self) -> bool {
        self == Platform::Windows
    }

    /// The character that stands for `c` when names are compared.
    pub open spec fn canonical_char(self, c: char) -> char {
        if self.folds_case() {
            fold_char(c)
        } else {
            c
        }
    }

    /// Decides `separates`.
    pub fn is_separator(self, c: char) -> (r: bool)
        ensures
            r == self.separates(c),
    {
        match self {
            Platform::Posix => c == '/',
            Platform::Windows => c == '/' || c == '\\',
        }
    }

    /// Computes `canonical_char`.
    pub fn canonical(self, c: char) -> (r: char)
        ensures
            r == self.canonical_char(c),
    {
        match self {
            Platform::Posix => c,
            Platform::Windows => to_ascii_lower(c),
        }
    }
}

/// `c` with an ASCII capital letter replaced by its small letter; every other
/// character, non-ASCII letters included, stays as it is.
pub open spec fn fold_char(c: char) -> char {
    if 'A' <= c && c <= 'Z' {
        ((c as u32) + 32) as char
    } else {
        c
    }
}

/// Computes `fold_char`.
pub fn to_ascii_lower(c: char) -> (r: char)
    ensures
        r == fold_char(c),
{
    if 'A' <= c && c <= 'Z' {
        let upper: u8 = c as u8;
        let lower: u8 = upper + 32;
        lower as char
    } else {
        c
    }
}

/// The form of `name` under which `platform` compares names.
pub open spec fn canonical_name(name: Seq<char>, platform: Platform) -> Seq<char> {
    Seq::new(name.len(), |i: int| platform.canonical_char(name[i]))
}

/// Where the last component of `path` starts: just behind the last
/// separator, or at 0 where `path` holds none.
pub open spec fn base_start(path: Seq<char>, platform: Platform) -> int
    decreases path.len(),
{
    if path.len() == 0 {
        0
    } else if platform.separates(path.last()) {
        path.len() as int
    } else {
        base_start(path.drop_last(), platform)
    }
}

/// The last component of `path`: the executable's own name, without the
/// directories that lead to it. It is empty where `path` ends in a separator.
pub open spec fn base_name(path: Seq<char>, platform: Platform) -> Seq<char> {
    path.subrange(base_start(path, platform), path.len() as int)
}

/// The name under which `program` is looked up.
pub open spec fn lookup_name(program: Seq<char>, platform: Platform) -> Seq<char> {
    canonical_name(base_name(program, platform), platform)
}

/// Whether the program path `program` names the executable stored as `stored`.
pub open spec fn names_match(stored: Seq<char>, program: Seq<char>, platform: Platform) -> bool {
    canonical_name(stored, platform) == lookup_name(program, platform)
}

/// Whether `k` is a position in `path` with no separator at or behind it and
/// with a separator, or nothing, just before it.
pub open spec fn is_base_start(path: Seq<char>, platform: Platform, k: int) -> bool {
    &&& 0 <= k <= path.len()
    &&& k == 0 || platform.separates(path[k - 1])
    &&& forall|j: int| k <= j < path.len() ==> !platform.separates(#[trigger] path[j])
}

/// `base_start` is the one position that `is_base_start` describes.
pub proof fn lemma_base_start_unique(path: Seq<char>, platform: Platform, k: int)
    ensures
        is_base_start(path, platform, k) <==> k == base_start(path, platform),
    decreases path.len(),
{
    if path.len() > 0 && !platform.separates(path.last()) {
        let shorter = path.drop_last();
        lemma_base_start_unique(shorter, platform, k);
        if k == base_start(shorter, platform) {
            assert forall|j: int| k <= j < path.len() implies !platform.separates(
                #[trigger] path[j],
            ) by {
                if j < shorter.len() {
                    assert(shorter[j] == path[j]);
                }
            }
        }
    }
}

/// A path without a separator is its own last component.
pub proof fn lemma_base_name_of_plain(name: Seq<char>, platform: Platform)
    requires
        forall|i: int| 0 <= i < name.len() ==> !platform.separates(#[trigger] name[i]),
    ensures
        base_name(name, platform) == name,
{
    lemma_base_start_unique(name, platform, 0);
}

/// Directories do not count: a name behind a separator is the last component
/// of the path, whatever stands before the separator.
pub proof fn lemma_base_name_of_joined(
    directory: Seq<char>,
    separator: char,
    name: Seq<char>,
    platform: Platform,
)
    requires
        platform.separates(separator),
        forall|i: int| 0 <= i < name.len() ==> !platform.separates(#[trigger] name[i]),
    ensures
        base_name(directory.push(separator) + name, platform) == name,
        lookup_name(directory.push(separator) + name, platform) == lookup_name(name, platform),
{
    lemma_base_start_unique(
        directory.push(separator) + name,
        platform,
        directory.len() as int + 1,
    );
    lemma_base_name_of_plain(name, platform);
}

/// Bringing a name into its canonical form a second time changes nothing.
pub proof fn lemma_canonical_idempotent(name: Seq<char>, platform: Platform)
    ensures
        canonical_name(canonical_name(name, platform), platform) == canonical_name(name, platform),
{
}

/// The canonical form keeps the separators of a path where they are, so the
/// last component of the canonical path is the canonical last component.
pub proof fn lemma_canonical_keeps_base(path: Seq<char>, platform: Platform)
    ensures
        base_start(canonical_name(path, platform), platform) == base_start(path, platform),
        lookup_name(canonical_name(path, platform), platform) == lookup_name(path, platform),
    decreases path.len(),
{
    if path.len() > 0 {
        assert(canonical_name(path, platform).drop_last() =~= canonical_name(
            path.drop_last(),
            platform,
        ));
        lemma_canonical_keeps_base(path.drop_last(), platform);
    }
    lemma_base_start_unique(path, platform, base_start(path, platform));
}

/// On a platform that does not fold case, a stored name matches exactly the
/// paths whose last component it is.
pub proof fn lemma_posix_matches_exactly(stored: Seq<char>, program: Seq<char>)
    ensures
        names_match(stored, program, Platform::Posix) <==> stored == base_name(
            program,
            Platform::Posix,
        ),
{
    let base = base_name(program, Platform::Posix);
    assert(canonical_name(stored, Platform::Posix) =~= stored);
    assert(canonical_name(base, Platform::Posix) =~= base);
}

/// Where the platform folds case, the case of ASCII letters counts neither
/// in the stored name nor in the path.
pub proof fn lemma_case_does_not_count(stored: Seq<char>, program: Seq<char>, platform: Platform)
    ensures
        names_match(stored, program, platform) == names_match(
            canonical_name(stored, platform),
            canonical_name(program, platform),
            platform,
        ),
{
    lemma_canonical_idempotent(stored, platform);
    lemma_canonical_keeps_base(program, platform);
}

/// Computes `base_start`.
pub fn base_offset(path: &Vec<char>, platform: Platform) -> (k: usize)
    ensures
        k == base_start(path@, platform),
        k <= path.len(),
{
    let mut k: usize = path.len();
    while k > 0 && !platform.is_separator(path[k - 1])
        invariant
            k <= path.len(),
            forall|j: int| k <= j < path.len() ==> !platform.separates(#[trigger] path@[j]),
        decreases k,
    {
        k = k - 1;
    }
    proof {
        lemma_base_start_unique(path@, platform, k as int);
    }
    k
}

/// Compares `stored` with the part of `program` that starts at `start`.
pub(crate) fn tail_matches(
    stored: &str,
    program: &Vec<char>,
    start: usize,
    platform: Platform,
) -> (r: bool)
    requires
        start <= program.len(),
    ensures
        r == (canonical_name(stored@, platform) == canonical_name(
            program@.subrange(start as int, program.len() as int),
            platform,
        )),
{
    let ghost tail = program@.subrange(start as int, program.len() as int);
    let rest: usize = program.len() - start;
    let mut seen: usize = 0;
    for c in it: stored.chars()
        invariant
            it.seq() == stored@,
            seen == it.index(),
            seen <= rest,
            rest == program.len() - start,
            tail == program@.subrange(start as int, program.len() as int),
            forall|j: int|
                0 <= j < seen ==> platform.canonical_char(stored@[j]) == platform.canonical_char(
                    #[trigger] tail[j],
                ),
    {
        if seen == rest {
            assert(canonical_name(stored@, platform).len() != canonical_name(tail, platform).len());
            return false;
        }
        if platform.canonical(c) != platform.canonical(program[start + seen]) {
            assert(canonical_name(stored@, platform)[seen as int] != canonical_name(
                tail,
                platform,
            )[seen as int]);
            return false;
        }
        seen = seen + 1;
    }
    if seen == rest {
        assert(canonical_name(stored@, platform) =~= canonical_name(tail, platform));
        true
    } else {
        assert(canonical_name(stored@, platform).len() != canonical_name(tail, platform).len());
        false
    }
}

/// Decides `names_match`: whether the program path `program` names the
/// executable stored as `stored`.
pub fn program_matches(stored: &str, program: &str, platform: Platform) -> (r: bool)
    ensures
        r == names_match(stored@, program@, platform),
{
    let chars = chars_of(program);
    let start = base_offset(&chars, platform);
    tail_matches(stored, &chars, start, platform)
}

} // verus!
