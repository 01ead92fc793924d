//! Entering a container's root filesystem: bind mounts into it, then
//! `pivot_root` or `chroot`.

use vstd::prelude::*;
use vstd::string::*;

use crate::error::{ErrorView, GrinddError};
use crate::paths::{join, path_join};
use crate::text::{chars_of, concat, substring};

verus! {

/// A host directory to make visible inside the container.
#[derive(Debug, Clone)]
pub struct BindMount {
    pub source: String,
    pub target: String,
    pub read_only: bool,
}

/// The model of a `BindMount`.
pub struct BindView {
    pub source: Seq<char>,
    pub target: Seq<char>,
    pub read_only: bool,
}

impl View for BindMount {
    type V = BindView;

    open spec fn view(&self) -> BindView {
        BindView { source: self.source@, target: self.target@, read_only: self.read_only }
    }
}

/// How to enter a root filesystem.
#[derive(Debug, Clone)]
pub struct RootfsPlan {
    pub root: String,
    pub use_pivot_root: bool,
    pub bind_mounts: Vec<BindMount>,
}

/// The model of a `RootfsPlan`.
pub struct RootfsView {
    pub root: Seq<char>,
    pub use_pivot_root: bool,
    pub bind_mounts: Seq<BindView>,
}

impl View for RootfsPlan {
    type V = RootfsView;

    open spec fn view(&self) -> RootfsView {
        RootfsView {
            root: self.root@,
            use_pivot_root: self.use_pivot_root,
            bind_mounts: self.bind_mounts@.map_values(|b: BindMount| b@),
        }
    }
}

/// One operation of entering a root filesystem, for the caller to perform.
#[derive(Debug)]
pub enum RootfsOp {
    /// Create the directory at this path, with its parents.
    CreateDir(String),
    /// Bind-mount `source`, recursively, at `destination` (where the bind
    /// target `target` lies under the new root).
    BindMount { source: String, destination: String, target: String },
    /// Remount the bind mount at `destination` (of bind target `target`)
    /// read-only.
    RemountReadOnly { destination: String, target: String },
    /// Bind-mount `root` onto itself, so that `pivot_root` can move it, with
    /// the old root going to `old_root`.
    BindRootToItself { root: String, old_root: String },
    /// Make `root` the root with `pivot_root`, the old root going to
    /// `old_root`.
    PivotRoot { root: String, old_root: String },
    /// Make this directory the root with `chroot`.
    Chroot(String),
    /// Change to the new root directory `/`, after `pivot_root` or after
    /// `chroot`.
    ChdirRoot { after_pivot: bool },
    /// Detach the old root mounted at this path (lazily).
    DetachOldRoot(String),
    /// Remove the directory at this path with all that is under it.
    RemoveOldRoot(String),
}

/// The model of a `RootfsOp`.
pub enum OpView {
    CreateDir(Seq<char>),
    BindMount { source: Seq<char>, destination: Seq<char>, target: Seq<char> },
    RemountReadOnly { destination: Seq<char>, target: Seq<char> },
    BindRootToItself { root: Seq<char>, old_root: Seq<char> },
    PivotRoot { root: Seq<char>, old_root: Seq<char> },
    Chroot(Seq<char>),
    ChdirRoot { after_pivot: bool },
    DetachOldRoot(Seq<char>),
    RemoveOldRoot(Seq<char>),
}

impl View for RootfsOp {
    type V = OpView;

    open spec fn view(&self) -> OpView {
        match self {
            RootfsOp::CreateDir(p) => OpView::CreateDir(p@),
            RootfsOp::BindMount { source, destination, target } => OpView::BindMount {
                source: source@,
                destination: destination@,
                target: target@,
            },
            RootfsOp::RemountReadOnly { destination, target } => OpView::RemountReadOnly {
                destination: destination@,
                target: target@,
            },
            RootfsOp::BindRootToItself { root, old_root } => OpView::BindRootToItself {
                root: root@,
                old_root: old_root@,
            },
            RootfsOp::PivotRoot { root, old_root } => OpView::PivotRoot {
                root: root@,
                old_root: old_root@,
            },
            RootfsOp::Chroot(r) => OpView::Chroot(r@),
            RootfsOp::ChdirRoot { after_pivot } => OpView::ChdirRoot { after_pivot: *after_pivot },
            RootfsOp::DetachOldRoot(p) => OpView::DetachOldRoot(p@),
            RootfsOp::RemoveOldRoot(p) => OpView::RemoveOldRoot(p@),
        }
    }
}

pub open spec fn op_views(v: Seq<RootfsOp>) -> Seq<OpView> {
    v.map_values(|o: RootfsOp| o@)
}

/// `s` without leading empty and `.` components.
pub open spec fn trim_leading_components(s: Seq<char>) -> Seq<char>
    decreases s.len(),
{
    if s.len() > 0 && s[0] == '/' {
        trim_leading_components(s.drop_first())
    } else if s.len() == 1 && s[0] == '.' {
        seq![]
    } else if s.len() >= 2 && s[0] == '.' && s[1] == '/' {
        trim_leading_components(s.skip(2))
    } else {
        s
    }
}

/// `s` without trailing empty and `.` components.
pub open spec fn trim_trailing_components(s: Seq<char>) -> Seq<char>
    decreases s.len(),
{
    if s.len() > 0 && s.last() == '/' {
        trim_trailing_components(s.drop_last())
    } else if s.len() >= 2 && s.last() == '.' && s[s.len() - 2] == '/' {
        trim_trailing_components(s.take(s.len() - 2))
    } else {
        s
    }
}

/// Where a bind target goes under the new root: an absolute target loses its
/// root and its empty and `.` components at either end (`strip_prefix("/")`);
/// a relative one stays as it is.
pub open spec fn relative_target(target: Seq<char>) -> Seq<char> {
    if target.len() > 0 && target[0] == '/' {
        trim_trailing_components(trim_leading_components(target.drop_first()))
    } else {
        target
    }
}

/// Where the bind mount `b` lands under `root`.
pub open spec fn bind_destination(root: Seq<char>, b: BindView) -> Seq<char> {
    path_join(root, relative_target(b.target))
}

/// The operations of bind mount `b` under `root`: create its destination,
/// bind-mount its source there, and remount it read-only exactly when it is
/// read-only.
pub open spec fn bind_ops(root: Seq<char>, b: BindView) -> Seq<OpView> {
    let destination = bind_destination(root, b);
    seq![
        OpView::CreateDir(destination),
        OpView::BindMount { source: b.source, destination, target: b.target },
    ] + if b.read_only {
        seq![OpView::RemountReadOnly { destination, target: b.target }]
    } else {
        seq![]
    }
}

/// The operations of the bind mounts `binds` under `root`, in order.
pub open spec fn binds_ops(root: Seq<char>, binds: Seq<BindView>) -> Seq<OpView>
    decreases binds.len(),
{
    if binds.len() == 0 {
        seq![]
    } else {
        binds_ops(root, binds.drop_last()) + bind_ops(root, binds.last())
    }
}

/// Where the old root goes during `pivot_root`, seen from the new root.
pub open spec fn pivot_old() -> Seq<char> {
    "/.pivot_old"@
}

/// Entering `root` with `pivot_root`: create `root/.pivot_old`, bind-mount
/// `root` onto itself, pivot, change to `/`, detach the old root and remove
/// its directory.
pub open spec fn pivot_ops(root: Seq<char>) -> Seq<OpView> {
    let old_root = path_join(root, ".pivot_old"@);
    seq![
        OpView::CreateDir(old_root),
        OpView::BindRootToItself { root, old_root },
        OpView::PivotRoot { root, old_root },
        OpView::ChdirRoot { after_pivot: true },
        OpView::DetachOldRoot(pivot_old()),
        OpView::RemoveOldRoot(pivot_old()),
    ]
}

/// Entering `root` with `chroot`, then changing to `/`.
pub open spec fn chroot_ops(root: Seq<char>) -> Seq<OpView> {
    seq![OpView::Chroot(root), OpView::ChdirRoot { after_pivot: false }]
}

/// The operations that enter the root filesystem of `p`: each bind mount, in
/// order, then `pivot_root` or `chroot`.
pub open spec fn rootfs_ops(p: RootfsView) -> Seq<OpView> {
    binds_ops(p.root, p.bind_mounts) + if p.use_pivot_root {
        pivot_ops(p.root)
    } else {
        chroot_ops(p.root)
    }
}

/// Whether `s` holds a NUL character, which no path handed to the kernel can.
pub open spec fn has_nul(s: Seq<char>) -> bool {
    s.contains('\0')
}

/// The error that stops operation `op` before it starts, because one of its
/// paths cannot be handed to the kernel.
pub open spec fn op_path_error(op: OpView) -> Option<ErrorView> {
    match op {
        OpView::BindMount { source, destination, .. } => if has_nul(source) {
            Some(ErrorView::Runtime("invalid bind source path"@))
        } else if has_nul(destination) {
            Some(ErrorView::Runtime("invalid bind target path"@))
        } else {
            None
        },
        OpView::BindRootToItself { root, old_root } => if has_nul(root) {
            Some(ErrorView::Runtime("invalid root path for pivot_root"@))
        } else if has_nul(old_root) {
            Some(ErrorView::Runtime("invalid old root path for pivot_root"@))
        } else {
            None
        },
        OpView::Chroot(root) => if has_nul(root) {
            Some(ErrorView::Runtime("invalid rootfs path"@))
        } else {
            None
        },
        _ => None,
    }
}

/// What comes of a failed operation.
#[derive(Debug)]
pub enum OnFailure {
    /// Entering the root filesystem fails with this error.
    Stop(GrinddError),
    /// The failure is ignored; go on with the next operation.
    Continue,
    /// Perform these operations in place of the remaining ones.
    Instead(Vec<RootfsOp>),
}

/// The model of an `OnFailure`.
pub enum OnFailureView {
    Stop(ErrorView),
    Continue,
    Instead(Seq<OpView>),
}

impl View for OnFailure {
    type V = OnFailureView;

    open spec fn view(&self) -> OnFailureView {
        match self {
            OnFailure::Stop(e) => OnFailureView::Stop(e@),
            OnFailure::Continue => OnFailureView::Continue,
            OnFailure::Instead(ops) => OnFailureView::Instead(op_views(ops@)),
        }
    }
}

/// What comes of operation `op` failing with `cause` (the text of the
/// system's error): creating a directory fails with an I/O error; a failed
/// `pivot_root` falls back to `chroot`; removing the old root's directory may
/// fail; every other failure is a runtime error that names the operation.
pub open spec fn op_failure(op: OpView, cause: Seq<char>) -> OnFailureView {
    match op {
        OpView::CreateDir(_) => OnFailureView::Stop(ErrorView::Io(cause)),
        OpView::BindMount { source, target, .. } => OnFailureView::Stop(
            ErrorView::Runtime("bind mount "@ + source + " -> "@ + target + " failed: "@ + cause),
        ),
        OpView::RemountReadOnly { target, .. } => OnFailureView::Stop(
            ErrorView::Runtime("read-only remount failed for "@ + target + ": "@ + cause),
        ),
        OpView::BindRootToItself { .. } => OnFailureView::Stop(
            ErrorView::Runtime("bind mount before pivot_root failed: "@ + cause),
        ),
        OpView::PivotRoot { root, .. } => OnFailureView::Instead(chroot_ops(root)),
        OpView::Chroot(_) => OnFailureView::Stop(ErrorView::Runtime("chroot failed: "@ + cause)),
        OpView::ChdirRoot { after_pivot } => OnFailureView::Stop(
            ErrorView::Runtime(
                if after_pivot {
                    "chdir after pivot_root failed: "@
                } else {
                    "chdir after chroot failed: "@
                } + cause,
            ),
        ),
        OpView::DetachOldRoot(_) => OnFailureView::Stop(
            ErrorView::Runtime("umount old root failed: "@ + cause),
        ),
        OpView::RemoveOldRoot(_) => OnFailureView::Continue,
    }
}

fn leading_end(cs: &Vec<char>, a: usize, b: usize) -> (r: usize)
    requires
        a <= b <= cs@.len(),
    ensures
        a <= r <= b,
        cs@.subrange(r as int, b as int) == trim_leading_components(
            cs@.subrange(a as int, b as int),
        ),
    decreases b - a,
{
    let ghost s = cs@.subrange(a as int, b as int);
    if a < b && cs[a] == '/' {
        assert(s.drop_first() =~= cs@.subrange(a + 1, b as int));
        leading_end(cs, a + 1, b)
    } else if b - a == 1 && cs[a] == '.' {
        assert(cs@.subrange(b as int, b as int) =~= Seq::<char>::empty());
        b
    } else if b - a >= 2 && cs[a] == '.' && cs[a + 1] == '/' {
        assert(s.skip(2) =~= cs@.subrange(a + 2, b as int));
        leading_end(cs, a + 2, b)
    } else {
        a
    }
}

fn trailing_start(cs: &Vec<char>, a: usize, b: usize) -> (r: usize)
    requires
        a <= b <= cs@.len(),
    ensures
        a <= r <= b,
        cs@.subrange(a as int, r as int) == trim_trailing_components(
            cs@.subrange(a as int, b as int),
        ),
    decreases b - a,
{
    let ghost s = cs@.subrange(a as int, b as int);
    if a < b && cs[b - 1] == '/' {
        assert(s.drop_last() =~= cs@.subrange(a as int, b - 1));
        trailing_start(cs, a, b - 1)
    } else if b - a >= 2 && cs[b - 1] == '.' && cs[b - 2] == '/' {
        assert(s.take(s.len() - 2) =~= cs@.subrange(a as int, b - 2));
        trailing_start(cs, a, b - 2)
    } else {
        b
    }
}

/// Where the bind target `target` goes under the new root.
pub fn relative_bind_target(target: &str) -> (r: String)
    ensures
        r@ == relative_target(target@),
{
    let cs = chars_of(target);
    let n = cs.len();
    if n > 0 && cs[0] == '/' {
        assert(cs@.drop_first() =~= cs@.subrange(1, n as int));
        let a = leading_end(&cs, 1, n);
        let b = trailing_start(&cs, a, n);
        substring(target, a, b)
    } else {
        String::from_str(target)
    }
}

fn contains_nul(s: &str) -> (b: bool)
    ensures
        b == has_nul(s@),
{
    let cs = chars_of(s);
    let mut i: usize = 0;
    while i < cs.len()
        invariant
            i <= cs@.len(),
            cs@ == s@,
            forall|j: int| 0 <= j < i ==> cs@[j] != '\0',
        decreases cs@.len() - i,
    {
        if cs[i] == '\0' {
            return true;
        }
        i = i + 1;
    }
    false
}

/// The error that stops `op` before it starts, when one of its paths holds a
/// NUL character; the caller checks this before performing `op`.
pub fn path_check(op: &RootfsOp) -> (r: Option<GrinddError>)
    ensures
        match r {
            Some(e) => op_path_error(op@) == Some(e@),
            None => op_path_error(op@) is None,
        },
{
    match op {
        RootfsOp::BindMount { source, destination, .. } => if contains_nul(source.as_str()) {
            Some(GrinddError::Runtime(String::from_str("invalid bind source path")))
        } else if contains_nul(destination.as_str()) {
            Some(GrinddError::Runtime(String::from_str("invalid bind target path")))
        } else {
            None
        },
        RootfsOp::BindRootToItself { root, old_root } => if contains_nul(root.as_str()) {
            Some(GrinddError::Runtime(String::from_str("invalid root path for pivot_root")))
        } else if contains_nul(old_root.as_str()) {
            Some(GrinddError::Runtime(String::from_str("invalid old root path for pivot_root")))
        } else {
            None
        },
        RootfsOp::Chroot(root) => if contains_nul(root.as_str()) {
            Some(GrinddError::Runtime(String::from_str("invalid rootfs path")))
        } else {
            None
        },
        _ => None,
    }
}

fn chroot_sequence(root: &str) -> (r: Vec<RootfsOp>)
    ensures
        op_views(r@) == chroot_ops(root@),
{
    let mut r: Vec<RootfsOp> = Vec::new();
    r.push(RootfsOp::Chroot(String::from_str(root)));
    r.push(RootfsOp::ChdirRoot { after_pivot: false });
    assert(op_views(r@) =~= chroot_ops(root@));
    r
}

/// What comes of operation `op` failing with `cause`, the text of the
/// system's error.
pub fn after_op_failure(op: &RootfsOp, cause: String) -> (r: OnFailure)
    ensures
        r@ == op_failure(op@, cause@),
{
    match op {
        RootfsOp::CreateDir(_) => OnFailure::Stop(GrinddError::Io(cause)),
        RootfsOp::BindMount { source, target, .. } => {
            let mut m = concat("bind mount ", source.as_str());
            m.append(" -> ");
            m.append(target.as_str());
            m.append(" failed: ");
            m.append(cause.as_str());
            OnFailure::Stop(GrinddError::Runtime(m))
        },
        RootfsOp::RemountReadOnly { target, .. } => {
            let mut m = concat("read-only remount failed for ", target.as_str());
            m.append(": ");
            m.append(cause.as_str());
            OnFailure::Stop(GrinddError::Runtime(m))
        },
        RootfsOp::BindRootToItself { .. } => OnFailure::Stop(
            GrinddError::Runtime(concat("bind mount before pivot_root failed: ", cause.as_str())),
        ),
        RootfsOp::PivotRoot { root, .. } => OnFailure::Instead(chroot_sequence(root.as_str())),
        RootfsOp::Chroot(_) => OnFailure::Stop(
            GrinddError::Runtime(concat("chroot failed: ", cause.as_str())),
        ),
        RootfsOp::ChdirRoot { after_pivot } => {
            let prefix = if *after_pivot {
                "chdir after pivot_root failed: "
            } else {
                "chdir after chroot failed: "
            };
            OnFailure::Stop(GrinddError::Runtime(concat(prefix, cause.as_str())))
        },
        RootfsOp::DetachOldRoot(_) => OnFailure::Stop(
            GrinddError::Runtime(concat("umount old root failed: ", cause.as_str())),
        ),
        RootfsOp::RemoveOldRoot(_) => OnFailure::Continue,
    }
}

fn push_op(r: &mut Vec<RootfsOp>, op: RootfsOp)
    ensures
        op_views(final(r)@) == op_views(old(r)@).push(op@),
{
    let ghost before = r@;
    r.push(op);
    assert(op_views(r@) =~= op_views(before).push(op@));
}

/// The operations that enter the root filesystem of `plan`, for the caller
/// to perform in order: before each, `path_check`; after a failure,
/// `after_op_failure`.
pub fn apply_rootfs(plan: &RootfsPlan) -> (r: Vec<RootfsOp>)
    ensures
        op_views(r@) == rootfs_ops(plan@),
{
    let root = plan.root.as_str();
    let ghost binds = plan@.bind_mounts;
    let mut r: Vec<RootfsOp> = Vec::new();
    let mut i: usize = 0;
    assert(binds.take(0) =~= Seq::<BindView>::empty());
    assert(op_views(r@) =~= Seq::<OpView>::empty());
    while i < plan.bind_mounts.len()
        invariant
            i <= plan.bind_mounts@.len(),
            root@ == plan.root@,
            binds == plan@.bind_mounts,
            op_views(r@) == binds_ops(plan.root@, binds.take(i as int)),
        decreases plan.bind_mounts@.len() - i,
    {
        let bind = &plan.bind_mounts[i];
        let ghost before = op_views(r@);
        let relative = relative_bind_target(bind.target.as_str());
        let destination = join(root, relative.as_str());
        push_op(&mut r, RootfsOp::CreateDir(destination.clone()));
        push_op(
            &mut r,
            RootfsOp::BindMount {
                source: bind.source.clone(),
                destination: destination.clone(),
                target: bind.target.clone(),
            },
        );
        if bind.read_only {
            push_op(&mut r, RootfsOp::RemountReadOnly { destination, target: bind.target.clone() });
        }
        assert(binds.take(i + 1).drop_last() =~= binds.take(i as int));
        assert(binds.take(i + 1).last() == bind@);
        assert(op_views(r@) =~= before + bind_ops(plan.root@, bind@));
        i = i + 1;
    }
    assert(binds.take(i as int) =~= binds);
    let ghost before = op_views(r@);
    if plan.use_pivot_root {
        let old_root = join(root, ".pivot_old");
        push_op(&mut r, RootfsOp::CreateDir(old_root.clone()));
        push_op(
            &mut r,
            RootfsOp::BindRootToItself { root: String::from_str(root), old_root: old_root.clone() },
        );
        push_op(&mut r, RootfsOp::PivotRoot { root: String::from_str(root), old_root });
        push_op(&mut r, RootfsOp::ChdirRoot { after_pivot: true });
        push_op(&mut r, RootfsOp::DetachOldRoot(String::from_str("/.pivot_old")));
        push_op(&mut r, RootfsOp::RemoveOldRoot(String::from_str("/.pivot_old")));
        assert(op_views(r@) =~= before + pivot_ops(plan.root@));
    } else {
        push_op(&mut r, RootfsOp::Chroot(String::from_str(root)));
        push_op(&mut r, RootfsOp::ChdirRoot { after_pivot: false });
        assert(op_views(r@) =~= before + chroot_ops(plan.root@));
    }
    r
}

/// An operation that mounts a bind into the new root.
pub open spec fn is_bind_op(op: OpView) -> bool {
    op is CreateDir || op is BindMount || op is RemountReadOnly
}

proof fn lemma_binds_ops_kinds(root: Seq<char>, binds: Seq<BindView>)
    ensures
        forall|k: int| 0 <= k < binds_ops(root, binds).len() ==> is_bind_op(
            #[trigger] binds_ops(root, binds)[k],
        ),
    decreases binds.len(),
{
    if binds.len() > 0 {
        lemma_binds_ops_kinds(root, binds.drop_last());
        let a = binds_ops(root, binds.drop_last());
        let b = bind_ops(root, binds.last());
        assert forall|k: int| 0 <= k < binds_ops(root, binds).len() implies is_bind_op(
            #[trigger] binds_ops(root, binds)[k],
        ) by {
            if k < a.len() {
                assert(binds_ops(root, binds)[k] == a[k]);
            } else {
                assert(binds_ops(root, binds)[k] == b[k - a.len()]);
            }
        }
    }
}

proof fn lemma_binds_ops_prefix(root: Seq<char>, binds: Seq<BindView>, m: int)
    requires
        0 <= m <= binds.len(),
    ensures
        binds_ops(root, binds.take(m)).len() <= binds_ops(root, binds).len(),
        forall|k: int|
            0 <= k < binds_ops(root, binds.take(m)).len() ==> #[trigger] binds_ops(root, binds)[k]
                == binds_ops(root, binds.take(m))[k],
    decreases binds.len(),
{
    if m == binds.len() {
        assert(binds.take(m) =~= binds);
    } else {
        assert(binds.take(m) =~= binds.drop_last().take(m));
        lemma_binds_ops_prefix(root, binds.drop_last(), m);
    }
}

/// Every bind mount of a plan is performed, whichever way the root is then
/// entered: its destination under the root is created, its source is
/// bind-mounted there (and remounted read-only when it is read-only), and all
/// of that comes before any `chroot` or `pivot_root`.
pub proof fn law_binds_mounted_before_root_is_entered(p: RootfsView, i: int)
    requires
        0 <= i < p.bind_mounts.len(),
    ensures
        exists|j: int|
            {
                let ops = rootfs_ops(p);
                let b = p.bind_mounts[i];
                let d = path_join(p.root, relative_target(b.target));
                &&& 0 <= j && j + 1 < ops.len()
                &&& #[trigger] rootfs_ops(p)[j] == OpView::CreateDir(d)
                &&& ops[j + 1] == OpView::BindMount {
                    source: b.source,
                    destination: d,
                    target: b.target,
                }
                &&& b.read_only ==> j + 2 < ops.len() && ops[j + 2]
                    == OpView::RemountReadOnly { destination: d, target: b.target }
                &&& forall|k: int|
                    0 <= k <= j + 1 ==> !(#[trigger] ops[k] is Chroot)
                        && !(ops[k] is PivotRoot)
            },
{
    let binds = p.bind_mounts;
    let all = binds_ops(p.root, binds);
    let ops = rootfs_ops(p);
    let pre = binds_ops(p.root, binds.take(i));
    let j = pre.len() as int;
    let b = binds[i];
    assert(binds.take(i + 1).drop_last() =~= binds.take(i));
    assert(binds.take(i + 1).last() == b);
    let upto = binds_ops(p.root, binds.take(i + 1));
    assert(upto == pre + bind_ops(p.root, b));
    lemma_binds_ops_prefix(p.root, binds, i + 1);
    lemma_binds_ops_kinds(p.root, binds);
    assert(all[j] == upto[j]);
    assert(all[j + 1] == upto[j + 1]);
    if b.read_only {
        assert(all[j + 2] == upto[j + 2]);
    }
    let tail = if p.use_pivot_root {
        pivot_ops(p.root)
    } else {
        chroot_ops(p.root)
    };
    assert(ops == all + tail);
    assert forall|k: int| 0 <= k <= j + 1 implies !(#[trigger] ops[k] is Chroot)
        && !(ops[k] is PivotRoot) by {
        assert(ops[k] == all[k]);
        assert(is_bind_op(all[k]));
    }
    assert(ops[j] == OpView::CreateDir(bind_destination(p.root, b)));
}

/// The root is entered last, after nothing but bind-mount operations: with
/// `chroot` the operations end with `chroot` into the root and a change to
/// `/`; with `pivot_root` they end with creating `root/.pivot_old`, binding
/// the root onto itself, pivoting into it, changing to `/`, detaching and
/// removing `/.pivot_old`.
pub proof fn law_root_entered_after_binds(p: RootfsView)
    ensures
        ({
            let ops = rootfs_ops(p);
            let n = ops.len() as int;
            let old_root = path_join(p.root, ".pivot_old"@);
            &&& !p.use_pivot_root ==> {
                &&& n >= 2
                &&& ops[n - 2] == OpView::Chroot(p.root)
                &&& ops[n - 1] == OpView::ChdirRoot { after_pivot: false }
                &&& forall|k: int| 0 <= k < n - 2 ==> is_bind_op(#[trigger] ops[k])
            }
            &&& p.use_pivot_root ==> {
                &&& n >= 6
                &&& ops[n - 6] == OpView::CreateDir(old_root)
                &&& ops[n - 5] == OpView::BindRootToItself { root: p.root, old_root }
                &&& ops[n - 4] == OpView::PivotRoot { root: p.root, old_root }
                &&& ops[n - 3] == OpView::ChdirRoot { after_pivot: true }
                &&& ops[n - 2] == OpView::DetachOldRoot("/.pivot_old"@)
                &&& ops[n - 1] == OpView::RemoveOldRoot("/.pivot_old"@)
                &&& forall|k: int| 0 <= k < n - 6 ==> is_bind_op(#[trigger] ops[k])
            }
        }),
{
    let all = binds_ops(p.root, p.bind_mounts);
    lemma_binds_ops_kinds(p.root, p.bind_mounts);
    let ops = rootfs_ops(p);
    assert forall|k: int| 0 <= k < all.len() implies is_bind_op(#[trigger] ops[k]) by {
        assert(ops[k] == all[k]);
    }
}

/// A relative bind target stays as it is under the new root; an absolute one
/// loses only its leading `/` when it has no empty or `.` component at
/// either end.
pub proof fn law_bind_target_under_root(target: Seq<char>)
    ensures
        target.len() == 0 || target[0] != '/' ==> relative_target(target) == target,
        target.len() >= 2 && target[0] == '/' && target[1] != '/' && target[1] != '.'
            && target.last() != '/' && target.last() != '.' ==> relative_target(target)
            == target.drop_first(),
{
}

} // verus!
