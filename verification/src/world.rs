//! Inspection of a Minecraft Java world folder and the tally of a directory
//! tree's files.
use vstd::prelude::*;

verus! {

/// What the front end is told about a world folder.
pub struct WorldInspection {
    pub valid: bool,
    pub world_path: String,
    pub world_name: String,
    pub has_level_dat: bool,
    pub has_nether: bool,
    pub has_end: bool,
    pub size_bytes: u64,
    pub file_count: u64,
    pub estimated_required_bytes: u64,
    pub warnings: Vec<String>,
}

/// The plain-value model of `WorldInspection`.
pub struct InspectionView {
    pub valid: bool,
    pub world_path: Seq<char>,
    pub world_name: Seq<char>,
    pub has_level_dat: bool,
    pub has_nether: bool,
    pub has_end: bool,
    pub size_bytes: u64,
    pub file_count: u64,
    pub estimated_required_bytes: u64,
    pub warnings: Seq<Seq<char>>,
}

impl View for WorldInspection {
    type V = InspectionView;

    open spec fn view(&self) -> InspectionView {
        InspectionView {
            valid: self.valid,
            world_path: self.world_path@,
            world_name: self.world_name@,
            has_level_dat: self.has_level_dat,
            has_nether: self.has_nether,
            has_end: self.has_end,
            size_bytes: self.size_bytes,
            file_count: self.file_count,
            estimated_required_bytes: self.estimated_required_bytes,
            warnings: self.warnings.deep_view(),
        }
    }
}

impl DeepView for WorldInspection {
    type V = InspectionView;

    open spec fn deep_view(&self) -> InspectionView {
        self@
    }
}

/// Space that a render needs beyond the world's own size: 5 GiB.
pub open spec fn render_headroom() -> nat {
    5 * 1024 * 1024 * 1024
}

/// The warning for a folder without `level.dat`.
pub open spec fn no_level_dat_warning() -> Seq<char> {
    "这个目录缺少 level.dat，BlueMap 可能无法识别为 Java 世界。"@
}

/// The warning for a world without a Nether folder (`DIM-1`).
pub open spec fn no_nether_warning() -> Seq<char> {
    "未发现 DIM-1，下界渲染会自动关闭。"@
}

/// The warning for a world without an End folder (`DIM1`).
pub open spec fn no_end_warning() -> Seq<char> {
    "未发现 DIM1，末地渲染会自动关闭。"@
}

/// The warnings for a world folder, in this order: missing `level.dat`,
/// missing Nether, missing End.
pub open spec fn world_warnings(has_level_dat: bool, has_nether: bool, has_end: bool) -> Seq<Seq<char>> {
    (if has_level_dat { Seq::empty() } else { seq![no_level_dat_warning()] })
        + (if has_nether { Seq::empty() } else { seq![no_nether_warning()] })
        + (if has_end { Seq::empty() } else { seq![no_end_warning()] })
}

/// The inspection of a world folder.
///
/// `world_path` is the folder as displayed, `file_name` its last component
/// when that is valid text, the three flags say whether `level.dat`, `DIM-1`
/// and `DIM1` exist, and `stats` is the total size and file count of the
/// folder or the error met while counting. A folder is a valid world exactly
/// when it holds `level.dat`; an unnamed folder is called `world`; the space
/// estimate adds 5 GiB to the world's size, saturating.
pub open spec fn inspection_spec(
    world_path: Seq<char>,
    file_name: Option<Seq<char>>,
    has_level_dat: bool,
    has_nether: bool,
    has_end: bool,
    stats: Result<(u64, u64), Seq<char>>,
) -> Result<InspectionView, Seq<char>> {
    match stats {
        Err(e) => Err(e),
        Ok((size, count)) => Ok(
            InspectionView {
                valid: has_level_dat,
                world_path,
                world_name: match file_name {
                    Some(n) => n,
                    None => "world"@,
                },
                has_level_dat,
                has_nether,
                has_end,
                size_bytes: size,
                file_count: count,
                estimated_required_bytes: if size + render_headroom() > u64::MAX {
                    u64::MAX
                } else {
                    (size + render_headroom()) as u64
                },
                warnings: world_warnings(has_level_dat, has_nether, has_end),
            },
        ),
    }
}

/// The plain-value model of a counting result.
pub open spec fn stats_view(stats: Result<(u64, u64), String>) -> Result<(u64, u64), Seq<char>> {
    match stats {
        Ok(v) => Ok(v),
        Err(e) => Err(e@),
    }
}

/// The plain-value model of an inspection result.
pub open spec fn inspection_result_view(r: Result<WorldInspection, String>) -> Result<InspectionView, Seq<char>> {
    match r {
        Ok(i) => Ok(i@),
        Err(e) => Err(e@),
    }
}

/// Inspects a world folder from the facts gathered on disk (see
/// `inspection_spec`).
pub fn inspect_world_path(
    world_path: String,
    file_name: Option<String>,
    has_level_dat: bool,
    has_nether: bool,
    has_end: bool,
    stats: Result<(u64, u64), String>,
) -> (r: Result<WorldInspection, String>)
    ensures
        inspection_result_view(r) == inspection_spec(
            world_path@,
            file_name.deep_view(),
            has_level_dat,
            has_nether,
            has_end,
            stats_view(stats),
        ),
{
    let (size_bytes, file_count) = match stats {
        Err(e) => {
            return Err(e);
        },
        Ok(v) => v,
    };
    let mut warnings: Vec<String> = Vec::new();
    if !has_level_dat {
        warnings.push(String::from_str("这个目录缺少 level.dat，BlueMap 可能无法识别为 Java 世界。"));
    }
    if !has_nether {
        warnings.push(String::from_str("未发现 DIM-1，下界渲染会自动关闭。"));
    }
    if !has_end {
        warnings.push(String::from_str("未发现 DIM1，末地渲染会自动关闭。"));
    }
    assert(warnings.deep_view() =~= world_warnings(has_level_dat, has_nether, has_end));
    let world_name = match file_name {
        Some(n) => n,
        None => String::from_str("world"),
    };
    Ok(
        WorldInspection {
            valid: has_level_dat,
            world_path,
            world_name,
            has_level_dat,
            has_nether,
            has_end,
            size_bytes,
            file_count,
            estimated_required_bytes: size_bytes.saturating_add(5 * 1024 * 1024 * 1024),
            warnings,
        },
    )
}

/// The inspection reports the folder's facts as they were found: its path,
/// whether it holds `level.dat`, `DIM-1` and `DIM1`, its size and file
/// count; it warns about a missing Nether or End folder exactly when that
/// folder is missing; and a failed count is reported as that error.
pub proof fn law_inspection_reports_folder_facts(
    world_path: Seq<char>,
    file_name: Option<Seq<char>>,
    has_level_dat: bool,
    has_nether: bool,
    has_end: bool,
    stats: Result<(u64, u64), Seq<char>>,
)
    ensures
        stats matches Err(e) ==> inspection_spec(
            world_path,
            file_name,
            has_level_dat,
            has_nether,
            has_end,
            stats,
        ) == Err::<InspectionView, Seq<char>>(e),
        stats matches Ok((size, count)) ==> ({
            let r = inspection_spec(world_path, file_name, has_level_dat, has_nether, has_end, stats);
            &&& r is Ok
            &&& r->Ok_0.world_path == world_path
            &&& r->Ok_0.has_level_dat == has_level_dat
            &&& r->Ok_0.has_nether == has_nether
            &&& r->Ok_0.has_end == has_end
            &&& r->Ok_0.size_bytes == size
            &&& r->Ok_0.file_count == count
            &&& r->Ok_0.warnings.contains(no_nether_warning()) <==> !has_nether
            &&& r->Ok_0.warnings.contains(no_end_warning()) <==> !has_end
        }),
{
    reveal_strlit("这个目录缺少 level.dat，BlueMap 可能无法识别为 Java 世界。");
    reveal_strlit("未发现 DIM-1，下界渲染会自动关闭。");
    reveal_strlit("未发现 DIM1，末地渲染会自动关闭。");
    let l = no_level_dat_warning();
    let n = no_nether_warning();
    let e = no_end_warning();
    assert(l[0] != n[0]);
    assert(l[0] != e[0]);
    assert(n[7] != e[7]);
    let w = world_warnings(has_level_dat, has_nether, has_end);
    let a: Seq<Seq<char>> = if has_level_dat { Seq::empty() } else { seq![l] };
    let b: Seq<Seq<char>> = if has_nether { Seq::empty() } else { seq![n] };
    let c: Seq<Seq<char>> = if has_end { Seq::empty() } else { seq![e] };
    assert(w == a + b + c);
    if !has_nether {
        assert((a + b + c)[a.len() as int] == n);
    }
    if !has_end {
        assert((a + b + c)[(a.len() + b.len()) as int] == e);
    }
    assert(w.contains(n) ==> !has_nether) by {
        if w.contains(n) {
            let k = choose|k: int| 0 <= k < w.len() && w[k] == n;
            if k < a.len() {
                assert(w[k] == a[k]);
            } else if k >= a.len() + b.len() {
                assert(w[k] == c[k - a.len() - b.len()]);
            }
        }
    }
    assert(w.contains(e) ==> !has_end) by {
        if w.contains(e) {
            let k = choose|k: int| 0 <= k < w.len() && w[k] == e;
            if k < a.len() {
                assert(w[k] == a[k]);
            } else if k < a.len() + b.len() {
                assert(w[k] == b[k - a.len()]);
            }
        }
    }
}

/// Law: a folder counts as a world exactly when it holds `level.dat`, and
/// then no warning about `level.dat` is given; otherwise that warning comes
/// first.
pub proof fn law_validity_follows_level_dat(
    world_path: Seq<char>,
    file_name: Option<Seq<char>>,
    has_level_dat: bool,
    has_nether: bool,
    has_end: bool,
    size: u64,
    count: u64,
)
    ensures
        ({
            let r = inspection_spec(world_path, file_name, has_level_dat, has_nether, has_end, Ok((size, count)));
            &&& r is Ok
            &&& r->Ok_0.valid == has_level_dat
            &&& r->Ok_0.estimated_required_bytes >= size
            &&& has_level_dat ==> !r->Ok_0.warnings.contains(no_level_dat_warning())
            &&& !has_level_dat ==> r->Ok_0.warnings[0] == no_level_dat_warning()
        }),
{
    let w = world_warnings(has_level_dat, has_nether, has_end);
    if has_level_dat {
        reveal_strlit("这个目录缺少 level.dat，BlueMap 可能无法识别为 Java 世界。");
        reveal_strlit("未发现 DIM-1，下界渲染会自动关闭。");
        reveal_strlit("未发现 DIM1，末地渲染会自动关闭。");
        assert(no_level_dat_warning()[0] != no_nether_warning()[0]);
        assert(no_level_dat_warning()[0] != no_end_warning()[0]);
        if w.contains(no_level_dat_warning()) {
            let i = choose|i: int| 0 <= i < w.len() && w[i] == no_level_dat_warning();
            assert(w[i] == no_nether_warning() || w[i] == no_end_warning());
        }
    }
}

/// What a directory entry turned out to be.
pub enum EntryKind {
    /// A directory, to be walked in turn.
    Directory,
    /// A regular file of `len` bytes.
    File { len: u64 },
    /// Anything else (such as a broken link); not counted.
    Other,
}

/// The number of regular files among `entries`.
pub open spec fn files_in(entries: Seq<EntryKind>) -> nat
    decreases entries.len(),
{
    if entries.len() == 0 {
        0
    } else {
        files_in(entries.drop_last()) + if entries.last() is File {
            1nat
        } else {
            0nat
        }
    }
}

/// The total length of the regular files among `entries`.
pub open spec fn bytes_in(entries: Seq<EntryKind>) -> nat
    decreases entries.len(),
{
    if entries.len() == 0 {
        0
    } else {
        bytes_in(entries.drop_last()) + match entries.last() {
            EntryKind::File { len } => len as nat,
            _ => 0nat,
        }
    }
}

/// The total length of the regular files among `entries`, saturating at
/// `u64::MAX`.
pub open spec fn saturated_bytes(entries: Seq<EntryKind>) -> nat {
    if bytes_in(entries) > u64::MAX {
        u64::MAX as nat
    } else {
        bytes_in(entries)
    }
}

/// The positions of the directories among `entries`, in order.
pub open spec fn directory_positions(entries: Seq<EntryKind>) -> Seq<usize>
    decreases entries.len(),
{
    if entries.len() == 0 {
        Seq::empty()
    } else if entries.last() is Directory {
        directory_positions(entries.drop_last()).push((entries.len() - 1) as usize)
    } else {
        directory_positions(entries.drop_last())
    }
}

/// The running total of a directory walk: bytes in regular files (saturating)
/// and the number of regular files, with every entry counted so far.
pub struct DirTally {
    pub size_bytes: u64,
    pub file_count: u64,
    pub seen: Ghost<Seq<EntryKind>>,
}

impl DirTally {
    /// The tally holds exactly the regular files among the entries it has
    /// seen: each counted once, their lengths summed with saturation.
    pub open spec fn counts_seen(&self) -> bool {
        &&& self.file_count == files_in(self.seen@)
        &&& self.size_bytes == saturated_bytes(self.seen@)
    }

    /// An empty tally.
    pub fn new() -> (t: DirTally)
        ensures
            t.size_bytes == 0,
            t.file_count == 0,
            t.seen@ == Seq::<EntryKind>::empty(),
            t.counts_seen(),
    {
        DirTally { size_bytes: 0, file_count: 0, seen: Ghost(Seq::empty()) }
    }

    /// Counts one entry and says whether the walk descends into it: a regular
    /// file adds its length (saturating) and one to the count, a directory is
    /// descended into, anything else is skipped.
    pub fn record_entry(&mut self, kind: &EntryKind) -> (descend: bool)
        requires
            old(self).counts_seen(),
            kind is File ==> old(self).file_count < u64::MAX,
        ensures
            descend == kind is Directory,
            final(self).seen@ == old(self).seen@.push(*kind),
            final(self).counts_seen(),
            match kind {
                EntryKind::File { len } => {
                    &&& final(self).file_count == old(self).file_count + 1
                    &&& final(self).size_bytes == if old(self).size_bytes + *len > u64::MAX {
                        u64::MAX as int
                    } else {
                        old(self).size_bytes + *len
                    }
                },
                _ => final(self).file_count == old(self).file_count && final(self).size_bytes
                    == old(self).size_bytes,
            },
    {
        let ghost before = self.seen@;
        let ghost after = before.push(*kind);
        assert(after.drop_last() =~= before);
        self.seen = Ghost(after);
        match kind {
            EntryKind::Directory => true,
            EntryKind::File { len } => {
                self.file_count = self.file_count + 1;
                self.size_bytes = self.size_bytes.saturating_add(*len);
                false
            },
            EntryKind::Other => false,
        }
    }

    /// Counts the entries of one directory listing, in order, and answers the
    /// positions of the directories among them, which the walk visits next.
    pub fn record_listing(&mut self, entries: &Vec<EntryKind>) -> (descend: Vec<usize>)
        requires
            old(self).counts_seen(),
            old(self).file_count + files_in(entries@) <= u64::MAX,
        ensures
            final(self).seen@ == old(self).seen@ + entries@,
            final(self).counts_seen(),
            descend@ == directory_positions(entries@),
    {
        let ghost start_seen = self.seen@;
        let ghost start_files = self.file_count as int;
        proof {
            lemma_files_in_prefix(entries@, 0);
        }
        let mut descend: Vec<usize> = Vec::new();
        let mut i: usize = 0;
        assert(entries@.take(0) =~= Seq::<EntryKind>::empty());
        assert(start_seen + entries@.take(0) =~= start_seen);
        while i < entries.len()
            invariant
                i <= entries.len(),
                self.counts_seen(),
                self.seen@ == start_seen + entries@.take(i as int),
                self.file_count == start_files + files_in(entries@.take(i as int)),
                start_files + files_in(entries@) <= u64::MAX,
                descend@ == directory_positions(entries@.take(i as int)),
            decreases entries.len() - i,
        {
            let ghost prefix = entries@.take(i as int);
            let ghost next = entries@.take(i + 1);
            assert(next.drop_last() =~= prefix);
            assert(next.last() == entries@[i as int]);
            assert(start_seen + next =~= (start_seen + prefix).push(entries@[i as int]));
            proof {
                lemma_files_in_prefix(entries@, i + 1);
            }
            let dir = self.record_entry(&entries[i]);
            if dir {
                descend.push(i);
            }
            i = i + 1;
        }
        assert(entries@.take(entries.len() as int) =~= entries@);
        descend
    }
}

/// Over a walk, the counts of successive listings add up: the files and
/// bytes among `first` followed by `second` are those of `first` plus those
/// of `second`, so each listed file is counted exactly once.
pub proof fn law_listings_add_up(first: Seq<EntryKind>, second: Seq<EntryKind>)
    ensures
        files_in(first + second) == files_in(first) + files_in(second),
        bytes_in(first + second) == bytes_in(first) + bytes_in(second),
    decreases second.len(),
{
    if second.len() == 0 {
        assert(first + second =~= first);
    } else {
        law_listings_add_up(first, second.drop_last());
        assert((first + second).drop_last() =~= first + second.drop_last());
        assert((first + second).last() == second.last());
    }
}

/// Counting a prefix of a listing never finds more files than the whole.
pub proof fn lemma_files_in_prefix(entries: Seq<EntryKind>, n: int)
    requires
        0 <= n <= entries.len(),
    ensures
        files_in(entries.take(n)) <= files_in(entries),
    decreases entries.len() - n,
{
    if n == entries.len() {
        assert(entries.take(n) =~= entries);
    } else {
        lemma_files_in_prefix(entries, n + 1);
        assert(entries.take(n + 1).drop_last() =~= entries.take(n));
    }
}

} // verus!
