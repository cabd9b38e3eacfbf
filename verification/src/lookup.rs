use vstd::prelude::*;

verus! {

/// ASCII lower-casing of one byte.
pub open spec fn lower_byte(b: u8) -> u8 {
    if 65 <= b && b <= 90 {
        (b + 32) as u8
    } else {
        b
    }
}

/// ASCII lower-casing of a byte string.
pub open spec fn lower_bytes(s: Seq<u8>) -> Seq<u8> {
    s.map_values(|b: u8| lower_byte(b))
}

/// Case-insensitive equality of two names, as the process table is
/// searched with.
pub open spec fn name_matches(a: Seq<u8>, b: Seq<u8>) -> bool {
    lower_bytes(a) == lower_bytes(b)
}

fn lower_byte_of(b: u8) -> (r: u8)
    ensures
        r == lower_byte(b),
{
    if 65 <= b && b <= 90 {
        b + 32
    } else {
        b
    }
}

/// Case-insensitive comparison of two names.
pub fn names_match(a: &Vec<u8>, b: &Vec<u8>) -> (r: bool)
    ensures
        r == name_matches(a@, b@),
{
    if a.len() != b.len() {
        return false;
    }
    let mut i: usize = 0;
    while i < a.len()
        invariant
            a@.len() == b@.len(),
            i <= a@.len(),
            forall|k: int| 0 <= k < i ==> lower_byte(a@[k]) == lower_byte(b@[k]),
        decreases a@.len() - i,
    {
        if lower_byte_of(a[i]) != lower_byte_of(b[i]) {
            proof {
                assert(lower_bytes(a@)[i as int] != lower_bytes(b@)[i as int]);
            }
            return false;
        }
        i = i + 1;
    }
    proof {
        assert(lower_bytes(a@) =~= lower_bytes(b@));
    }
    true
}

/// One row of the platform's process table, as the enumeration hands it
/// over: the process name, its identifier, and the executable's path.
pub struct ProcessEntry {
    pub name: Vec<u8>,
    pub pid: u32,
    pub path: Vec<u8>,
}

/// The identity a lookup resolves: resolved fresh on every cycle, never
/// cached, since the running instance may have changed since the last
/// restart.
pub struct ProcessIdentity {
    pub pid: u32,
    pub path: Vec<u8>,
}

pub fn copy_bytes(v: &Vec<u8>) -> (r: Vec<u8>)
    ensures
        r@ == v@,
{
    let mut r: Vec<u8> = Vec::new();
    let mut i: usize = 0;
    while i < v.len()
        invariant
            i <= v@.len(),
            r@ == v@.take(i as int),
        decreases v@.len() - i,
    {
        r.push(v[i]);
        proof {
            assert(r@ =~= v@.take(i + 1));
        }
        i = i + 1;
    }
    proof {
        assert(v@.take(v@.len() as int) =~= v@);
    }
    r
}

/// The index of the first entry whose name matches `target`,
/// case-insensitively; `None` when no entry matches.
pub fn find_first_match(entries: &Vec<ProcessEntry>, target: &Vec<u8>) -> (r: Option<usize>)
    ensures
        r matches Some(i) ==> i < entries@.len() && name_matches(entries@[i as int].name@, target@)
            && forall|j: int| 0 <= j < i ==> !name_matches(entries@[j].name@, target@),
        r is None ==> forall|j: int|
            0 <= j < entries@.len() ==> !name_matches(entries@[j].name@, target@),
{
    let mut i: usize = 0;
    while i < entries.len()
        invariant
            i <= entries@.len(),
            forall|j: int| 0 <= j < i ==> !name_matches(entries@[j].name@, target@),
        decreases entries@.len() - i,
    {
        if names_match(&entries[i].name, target) {
            return Some(i);
        }
        i = i + 1;
    }
    None
}

/// Resolve `target` against a snapshot of the process table: the identity
/// of the first case-insensitive match, or `None` when the target is not
/// running.
pub fn lookup_process(entries: &Vec<ProcessEntry>, target: &Vec<u8>) -> (r: Option<ProcessIdentity>)
    ensures
        r is None ==> forall|j: int|
            0 <= j < entries@.len() ==> !name_matches(entries@[j].name@, target@),
        r matches Some(id) ==> exists|i: int|
            0 <= i < entries@.len() && name_matches(entries@[i].name@, target@)
                && id.pid == entries@[i].pid && id.path@ == entries@[i].path@
                && (forall|j: int| 0 <= j < i ==> !name_matches(entries@[j].name@, target@)),
{
    match find_first_match(entries, target) {
        None => None,
        Some(i) => Some(
            ProcessIdentity { pid: entries[i].pid, path: copy_bytes(&entries[i].path) },
        ),
    }
}

/// Resolve `target` to the identifier of the first case-insensitive
/// match, or `None` when the target is not running.
pub fn find_pid(entries: &Vec<ProcessEntry>, target: &Vec<u8>) -> (r: Option<u32>)
    ensures
        r is None ==> forall|j: int|
            0 <= j < entries@.len() ==> !name_matches(entries@[j].name@, target@),
        r matches Some(pid) ==> exists|i: int|
            0 <= i < entries@.len() && name_matches(entries@[i].name@, target@)
                && pid == entries@[i].pid
                && (forall|j: int| 0 <= j < i ==> !name_matches(entries@[j].name@, target@)),
{
    match find_first_match(entries, target) {
        None => None,
        Some(i) => Some(entries[i].pid),
    }
}

} // verus!
