use vstd::prelude::*;

verus! {

/// One row of the operating system's process table: a pid and the process's
/// image name.
#[derive(Debug)]
pub struct ProcessEntry {
    pub pid: u32,
    pub name: String,
}

/// `needle` stands in `hay` starting at position `i`.
pub open spec fn occurs_at(hay: Seq<char>, needle: Seq<char>, i: int) -> bool {
    &&& 0 <= i
    &&& i + needle.len() <= hay.len()
    &&& hay.subrange(i, i + needle.len()) == needle
}

/// `needle` is a substring of `hay`.
pub open spec fn contains_seq(hay: Seq<char>, needle: Seq<char>) -> bool {
    exists|i: int| occurs_at(hay, needle, i)
}

/// The pids of the entries whose name contains `exe_name`, in table order.
pub open spec fn matching_pids(table: Seq<ProcessEntry>, exe_name: Seq<char>) -> Seq<u32>
    decreases table.len(),
{
    if table.len() == 0 {
        Seq::empty()
    } else {
        let last = table.last();
        let rest = matching_pids(table.drop_last(), exe_name);
        if contains_seq(last.name@, exe_name) {
            rest.push(last.pid)
        } else {
            rest
        }
    }
}

fn occurs_at_exec(hay: &str, needle: &str, i: usize) -> (r: bool)
    requires
        i + needle@.len() <= hay@.len(),
        hay@.len() <= usize::MAX,
    ensures
        r == occurs_at(hay@, needle@, i as int),
{
    let m = needle.unicode_len();
    let mut j: usize = 0;
    while j < m
        invariant
            m == needle@.len(),
            i + m <= hay@.len(),
            hay@.len() <= usize::MAX,
            0 <= j <= m,
            forall|k: int| 0 <= k < j ==> hay@[i + k] == needle@[k],
        decreases m - j,
    {
        if hay.get_char(i + j) != needle.get_char(j) {
            assert(hay@.subrange(i as int, i + m)[j as int] != needle@[j as int]);
            return false;
        }
        j = j + 1;
    }
    assert(hay@.subrange(i as int, i + m) =~= needle@);
    true
}

/// Best-effort match of a process image name against the backend's
/// executable name: a plain substring test, which may also match unrelated
/// processes that share the name.
pub fn name_matches(name: &str, exe_name: &str) -> (r: bool)
    ensures
        r == contains_seq(name@, exe_name@),
{
    let n = name.unicode_len();
    let m = exe_name.unicode_len();
    if m > n {
        assert(forall|k: int| !occurs_at(name@, exe_name@, k));
        return false;
    }
    if m == 0 {
        assert(name@.subrange(0, 0) =~= exe_name@);
        assert(occurs_at(name@, exe_name@, 0));
        return true;
    }
    let mut i: usize = 0;
    while i <= n - m
        invariant
            n == name@.len(),
            m == exe_name@.len(),
            1 <= m <= n,
            0 <= i <= n - m + 1,
            forall|k: int| 0 <= k < i ==> !occurs_at(name@, exe_name@, k),
        decreases n - m + 1 - i,
    {
        if occurs_at_exec(name, exe_name, i) {
            return true;
        }
        i = i + 1;
    }
    assert(forall|k: int| !occurs_at(name@, exe_name@, k));
    false
}

/// The pids in `table` whose process name contains `exe_name`, in table order.
pub fn find_by_name(table: &Vec<ProcessEntry>, exe_name: &str) -> (r: Vec<u32>)
    ensures
        r@ == matching_pids(table@, exe_name@),
{
    let mut r: Vec<u32> = Vec::new();
    let mut i: usize = 0;
    while i < table.len()
        invariant
            0 <= i <= table@.len(),
            r@ == matching_pids(table@.subrange(0, i as int), exe_name@),
        decreases table@.len() - i,
    {
        let entry = &table[i];
        assert(table@.subrange(0, i + 1).drop_last() =~= table@.subrange(0, i as int));
        if name_matches(entry.name.as_str(), exe_name) {
            r.push(entry.pid);
        }
        i = i + 1;
    }
    assert(table@.subrange(0, i as int) =~= table@);
    r
}

} // verus!
