//! Figures of a process and its children.
use crate::utils::sequences;
use vstd::prelude::*;

verus! {

/// What the system reports of a process.
#[derive(Debug, Clone, Copy, PartialEq, Eq, Structural)]
pub struct ProcessStat {
    /// Its parent.
    pub ppid: i32,
    /// Ticks in user mode.
    pub utime: u64,
    /// Ticks in kernel mode.
    pub stime: u64,
    /// Ticks that awaited children spent in user mode.
    pub cutime: i64,
    /// Ticks that awaited children spent in kernel mode.
    pub cstime: i64,
    /// Resident pages.
    pub rss: u64,
    /// Bytes of virtual memory.
    pub vsize: u64,
}

/// Figures of a process and its children.
#[derive(Debug)]
pub struct TreeSample {
    /// The ticks of each process: the process itself first.
    pub ticks: Vec<u64>,
    /// Resident bytes of all.
    pub rss_bytes: u64,
    /// Virtual bytes of all.
    pub virt_bytes: u64,
}

/// The number that the bits of `value` stand for without a sign.
pub open spec fn without_sign(value: i64) -> int {
    if value < 0 {
        value + 0x1_0000_0000_0000_0000
    } else {
        value as int
    }
}

/// The number that the bits of `value` stand for without a sign.
fn cast_unsigned(value: i64) -> (number: u64)
    ensures
        number == without_sign(value),
{
    if value < 0 {
        ((value as i128) + 0x1_0000_0000_0000_0000i128) as u64
    } else {
        value as u64
    }
}

/// The ticks of a process and of the children that it awaited.
pub open spec fn own_ticks(stat: ProcessStat) -> int {
    stat.utime + stat.stime + without_sign(stat.cutime) + without_sign(stat.cstime)
}

/// The ticks of a child.
pub open spec fn child_ticks(stat: ProcessStat) -> int {
    stat.utime + stat.stime
}

/// Holds of children of `pid`.
pub open spec fn child_of(pid: i32) -> spec_fn(ProcessStat) -> bool {
    |stat: ProcessStat| stat.ppid == pid
}

/// The process, where it could be read, and its children.
pub open spec fn tree(own: Option<ProcessStat>, all: Seq<ProcessStat>, pid: i32) -> Seq<
    ProcessStat,
> {
    (match own {
        Some(stat) => seq![stat],
        None => Seq::empty(),
    }) + all.filter(child_of(pid))
}

/// The ticks of each process of a tree.
pub open spec fn tree_ticks(own: Option<ProcessStat>, tree: Seq<ProcessStat>) -> Seq<int> {
    Seq::new(
        tree.len(),
        |i: int|
            if i == 0 && own is Some {
                own_ticks(tree[i])
            } else {
                child_ticks(tree[i])
            },
    )
}

/// The resident pages of all.
pub open spec fn pages(stats: Seq<ProcessStat>) -> int
    decreases stats.len(),
{
    if stats.len() == 0 {
        0
    } else {
        pages(stats.drop_last()) + stats.last().rss
    }
}

/// The virtual bytes of all.
pub open spec fn virtual_bytes(stats: Seq<ProcessStat>) -> int
    decreases stats.len(),
{
    if stats.len() == 0 {
        0
    } else {
        virtual_bytes(stats.drop_last()) + stats.last().vsize
    }
}

/// The figures of a tree fit their types.
pub open spec fn figures_fit(
    own: Option<ProcessStat>,
    tree: Seq<ProcessStat>,
    page_size: u64,
) -> bool {
    &&& forall|i: int|
        0 <= i < tree.len() ==> (#[trigger] tree_ticks(own, tree)[i]) <= u64::MAX
    &&& pages(tree) <= u64::MAX
    &&& pages(tree) * page_size <= u64::MAX
    &&& virtual_bytes(tree) <= u64::MAX
}

/// The sums of a part are not above those of the whole.
proof fn lemma_part_is_less(stats: Seq<ProcessStat>, n: int)
    requires
        0 <= n <= stats.len(),
    ensures
        0 <= pages(stats.take(n)) <= pages(stats),
        0 <= virtual_bytes(stats.take(n)) <= virtual_bytes(stats),
    decreases stats.len(),
{
    if n == stats.len() {
        assert(stats.take(n) =~= stats);
        if n > 0 {
            lemma_part_is_less(stats.drop_last(), n - 1);
            assert(stats.drop_last().take(n - 1) =~= stats.drop_last());
        }
    } else {
        lemma_part_is_less(stats.drop_last(), n);
        assert(stats.drop_last().take(n) =~= stats.take(n));
    }
}

/// The process, where it could be read, and its children.
fn collect_tree(own: Option<ProcessStat>, all: &Vec<ProcessStat>, pid: i32) -> (found: Vec<
    ProcessStat,
>)
    ensures
        found@ == tree(own, all@, pid),
{
    let mut found: Vec<ProcessStat> = Vec::new();
    if let Some(stat) = own {
        found.push(stat);
    }
    let ghost first = found@;
    let ghost keep = child_of(pid);
    let mut i: usize = 0;
    proof {
        reveal(Seq::filter);
        assert(all@.take(0) =~= Seq::empty());
        assert(first =~= (match own {
            Some(stat) => seq![stat],
            None => Seq::empty(),
        }));
        assert(found@ =~= first + all@.take(0).filter(keep));
    }
    while i < all.len()
        invariant
            i <= all.len(),
            keep == child_of(pid),
            found@ =~= first + all@.take(i as int).filter(keep),
        decreases all.len() - i,
    {
        proof {
            sequences::lemma_filter_step(all@, i as int, keep);
        }
        if all[i].ppid == pid {
            found.push(all[i]);
        }
        i += 1;
    }
    assert(all@.take(all@.len() as int) =~= all@);
    found
}

/// The ticks of a process; of one that is itself watched, with those of the
/// children that it awaited. Nothing where they do not fit.
fn ticks_of(stat: &ProcessStat, watched: bool) -> (ticks: Option<u64>)
    ensures
        ({
            let exact = if watched {
                own_ticks(*stat)
            } else {
                child_ticks(*stat)
            };
            match ticks {
                Some(ticks) => ticks == exact,
                None => exact > u64::MAX,
            }
        }),
{
    let base: u128 = (stat.utime as u128) + (stat.stime as u128);
    let exact: u128 = if watched {
        base + (cast_unsigned(stat.cutime) as u128) + (cast_unsigned(stat.cstime) as u128)
    } else {
        base
    };
    if exact > u64::MAX as u128 {
        None
    } else {
        Some(exact as u64)
    }
}

/// The figures of the process `pid`, whose own figures are `own` where they
/// could be read, and of its children among `all` processes. Nothing where a
/// figure does not fit its type.
pub fn sample_tree_metrics(
    own: Option<ProcessStat>,
    all: &Vec<ProcessStat>,
    pid: i32,
    page_size: u64,
) -> (sample: Option<TreeSample>)
    ensures
        sample is Some <==> figures_fit(own, tree(own, all@, pid), page_size),
        sample matches Some(sample) ==> {
            &&& sample.ticks@.len() == tree(own, all@, pid).len()
            &&& forall|i: int|
                0 <= i < sample.ticks@.len() ==> #[trigger] sample.ticks@[i] == tree_ticks(
                    own,
                    tree(own, all@, pid),
                )[i]
            &&& sample.rss_bytes == pages(tree(own, all@, pid)) * page_size
            &&& sample.virt_bytes == virtual_bytes(tree(own, all@, pid))
        },
{
    let stats = collect_tree(own, all, pid);
    let ghost exact = tree_ticks(own, stats@);
    let mut ticks: Vec<u64> = Vec::new();
    let mut rss: u64 = 0;
    let mut virt_bytes: u64 = 0;
    let mut i: usize = 0;
    while i < stats.len()
        invariant
            i <= stats.len(),
            stats@ == tree(own, all@, pid),
            exact == tree_ticks(own, stats@),
            ticks@.len() == i,
            forall|j: int| 0 <= j < i ==> #[trigger] ticks@[j] == exact[j],
            rss == pages(stats@.take(i as int)),
            virt_bytes == virtual_bytes(stats@.take(i as int)),
        decreases stats.len() - i,
    {
        let stat = stats[i];
        proof {
            lemma_part_is_less(stats@, i + 1);
            assert(stats@.take(i + 1).drop_last() =~= stats@.take(i as int));
        }
        match ticks_of(&stat, i == 0 && own.is_some()) {
            Some(count) => ticks.push(count),
            None => {
                assert(exact[i as int] > u64::MAX);
                return None;
            },
        }
        rss = match rss.checked_add(stat.rss) {
            Some(sum) => sum,
            None => return None,
        };
        virt_bytes = match virt_bytes.checked_add(stat.vsize) {
            Some(sum) => sum,
            None => return None,
        };
        i += 1;
    }
    assert(stats@.take(stats@.len() as int) =~= stats@);
    match rss.checked_mul(page_size) {
        Some(rss_bytes) => {
            let sample = TreeSample { ticks, rss_bytes, virt_bytes };
            assert forall|j: int| 0 <= j < stats@.len() implies (#[trigger] exact[j])
                <= u64::MAX by {
                assert(sample.ticks@[j] == exact[j]);
            }
            Some(sample)
        },
        None => None,
    }
}

/// The sums over processes are made up of the parts: those of two lists together are
/// those of the one plus those of the other, and one process has its own.
pub proof fn law_sums_are_made_up_of_parts(
    first: Seq<ProcessStat>,
    second: Seq<ProcessStat>,
    stat: ProcessStat,
)
    ensures
        pages(first + second) == pages(first) + pages(second),
        virtual_bytes(first + second) == virtual_bytes(first) + virtual_bytes(second),
        pages(seq![stat]) == stat.rss,
        virtual_bytes(seq![stat]) == stat.vsize,
        pages(Seq::<ProcessStat>::empty()) == 0,
        virtual_bytes(Seq::<ProcessStat>::empty()) == 0,
    decreases second.len(),
{
    reveal_with_fuel(pages, 2);
    reveal_with_fuel(virtual_bytes, 2);
    assert(seq![stat].drop_last() =~= Seq::empty());
    if second.len() == 0 {
        assert(first + second =~= first);
    } else {
        law_sums_are_made_up_of_parts(first, second.drop_last(), stat);
        assert((first + second).drop_last() =~= first + second.drop_last());
        assert((first + second).last() == second.last());
    }
}

/// The figures of a process are its own and those of its children, and of no one else:
/// the process comes first where it could be read, every process with it as the parent
/// is there, and no other is.
pub proof fn law_tree_is_the_process_and_its_children(
    own: Option<ProcessStat>,
    all: Seq<ProcessStat>,
    pid: i32,
    i: int,
)
    ensures
        own matches Some(stat) ==> tree(own, all, pid).len() > 0 && tree(own, all, pid)[0] == stat,
        0 <= i < all.len() && all[i].ppid == pid ==> tree(own, all, pid).contains(all[i]),
        own is None && 0 <= i < tree(own, all, pid).len() ==> tree(own, all, pid)[i].ppid == pid
            && all.contains(tree(own, all, pid)[i]),
        own is Some && 1 <= i < tree(own, all, pid).len() ==> tree(own, all, pid)[i].ppid == pid
            && all.contains(tree(own, all, pid)[i]),
{
    let children = all.filter(child_of(pid));
    let found = tree(own, all, pid);
    sequences::lemma_filter_elements(all, child_of(pid));
    let offset: int = if own is Some {
        1
    } else {
        0
    };
    assert forall|k: int| 0 <= k < children.len() implies found[offset + k] == children[k] by {}
    if 0 <= i < all.len() && all[i].ppid == pid {
        assert(child_of(pid)(all[i]));
        assert(children.contains(all[i]));
        let k = choose|k: int| 0 <= k < children.len() && children[k] == all[i];
        assert(found[offset + k] == all[i]);
    }
    if offset <= i < found.len() {
        assert(found[i] == children[i - offset]);
        assert(child_of(pid)(children[i - offset]));
    }
}

/// The ticks of a process are those it spent itself, in user mode and in kernel mode;
/// those of the watched one are also what its awaited children spent, counted without a
/// sign.
pub proof fn law_ticks_are_counted(
    own: Option<ProcessStat>,
    stats: Seq<ProcessStat>,
    i: int,
    value: i64,
)
    requires
        0 <= i < stats.len(),
    ensures
        i > 0 || own is None ==> tree_ticks(own, stats)[i] == stats[i].utime + stats[i].stime,
        own is Some && stats[0].cutime >= 0 && stats[0].cstime >= 0 ==> tree_ticks(own, stats)[0]
            == stats[0].utime + stats[0].stime + stats[0].cutime + stats[0].cstime,
        tree_ticks(own, stats).len() == stats.len(),
        value >= 0 ==> without_sign(value) == value,
        value < 0 ==> without_sign(value) - value == 0x1_0000_0000_0000_0000,
{
}

/// The figures of a tree can be given exactly where each of them is a number of 64 bits:
/// the ticks of each process, the pages, the bytes they make up, and the virtual bytes.
/// A tree without processes has figures.
pub proof fn law_figures_that_fit_are_given(
    own: Option<ProcessStat>,
    stats: Seq<ProcessStat>,
    page_size: u64,
    i: int,
)
    ensures
        figures_fit(own, stats, page_size) && 0 <= i < stats.len() ==> tree_ticks(own, stats)[i]
            <= u64::MAX && pages(stats) * page_size <= u64::MAX && virtual_bytes(stats)
            <= u64::MAX,
        (forall|k: int| 0 <= k < stats.len() ==> (#[trigger] tree_ticks(own, stats)[k])
            <= u64::MAX) && pages(stats) <= u64::MAX && pages(stats) * page_size <= u64::MAX
            && virtual_bytes(stats) <= u64::MAX ==> figures_fit(own, stats, page_size),
        figures_fit(None, Seq::<ProcessStat>::empty(), page_size),
{
}

} // verus!
