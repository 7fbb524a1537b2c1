//! Sandboxed path resolution: splitting paths into components, expanding
//! symbolic links, and checking that the result stays inside the home
//! directory.
use vstd::prelude::*;
use crate::error::{RuntimeError, RuntimeResult};
use crate::types::PATH_MAX;

verus! {

pub const SLASH: u8 = 47;
pub const DOT: u8 = 46;
/// The depth reported for a path that names the root directory.
pub const DEPTH_ERR: isize = -2147483648;
/// The most symbolic links a resolution may expand.
pub const MAXSYMLINKS: usize = 10;

/// One component of a path.
#[derive(PartialEq, Eq, Debug)]
pub enum OwnedComponent {
    /// The root directory; appears only at the start of a path.
    RootDir,
    /// `.`
    CurDir,
    /// `..`
    ParentDir,
    /// A name, such as `a` in `a/b`.
    Normal(Vec<u8>),
}

/// A path component as a mathematical value.
pub enum ComponentView {
    RootDir,
    CurDir,
    ParentDir,
    Normal(Seq<u8>),
}

impl View for OwnedComponent {
    type V = ComponentView;

    open spec fn view(&self) -> ComponentView {
        match self {
            OwnedComponent::RootDir => ComponentView::RootDir,
            OwnedComponent::CurDir => ComponentView::CurDir,
            OwnedComponent::ParentDir => ComponentView::ParentDir,
            OwnedComponent::Normal(v) => ComponentView::Normal(v@),
        }
    }
}

/// The components of a list, as values.
pub open spec fn view_comps(v: Seq<OwnedComponent>) -> Seq<ComponentView> {
    v.map_values(|c: OwnedComponent| c@)
}

/// The component a segment between slashes stands for: empty segments and
/// `.` stand for nothing.
pub open spec fn seg_component(seg: Seq<u8>) -> Option<ComponentView> {
    if seg.len() == 0 || seg == seq![DOT] {
        None
    } else if seg == seq![DOT, DOT] {
        Some(ComponentView::ParentDir)
    } else {
        Some(ComponentView::Normal(seg))
    }
}

/// `cs` followed by the component of `seg`, if any.
pub open spec fn flush(cs: Seq<ComponentView>, seg: Seq<u8>) -> Seq<ComponentView> {
    match seg_component(seg) {
        Some(c) => cs.push(c),
        None => cs,
    }
}

/// The components that start a path: the root directory for an absolute
/// path, the current directory for a path that is `.` or starts with `./`.
pub open spec fn path_prefix(s: Seq<u8>) -> Seq<ComponentView> {
    if s.len() > 0 && s[0] == SLASH {
        seq![ComponentView::RootDir]
    } else if s.len() > 0 && s[0] == DOT && (s.len() == 1 || s[1] == SLASH) {
        seq![ComponentView::CurDir]
    } else {
        Seq::empty()
    }
}

/// The components completed and the segment being read after the first
/// `k` bytes of `s`.
pub open spec fn scan(s: Seq<u8>, k: nat) -> (Seq<ComponentView>, Seq<u8>)
    decreases k,
{
    if k == 0 {
        (path_prefix(s), Seq::empty())
    } else {
        let (cs, cur) = scan(s, (k - 1) as nat);
        if s[k - 1] == SLASH {
            (flush(cs, cur), Seq::empty())
        } else {
            (cs, cur.push(s[k - 1]))
        }
    }
}

/// The components of the path `s`, as the host's path library splits a
/// Unix path.
pub open spec fn parse_path(s: Seq<u8>) -> Seq<ComponentView> {
    let (cs, cur) = scan(s, s.len());
    flush(cs, cur)
}

/// The bytes a component is written as.
pub open spec fn comp_bytes(c: ComponentView) -> Seq<u8> {
    match c {
        ComponentView::RootDir => seq![SLASH],
        ComponentView::CurDir => seq![DOT],
        ComponentView::ParentDir => seq![DOT, DOT],
        ComponentView::Normal(v) => v,
    }
}

/// `buf` with the component `c` pushed onto it: the root directory
/// replaces the path, anything else is appended after a separator.
pub open spec fn join_step(buf: Seq<u8>, c: ComponentView) -> Seq<u8> {
    match c {
        ComponentView::RootDir => seq![SLASH],
        _ => (if buf.len() > 0 && buf.last() != SLASH { buf.push(SLASH) } else { buf }) + comp_bytes(c),
    }
}

/// The path that the components `cs` spell.
pub open spec fn join(cs: Seq<ComponentView>) -> Seq<u8>
    decreases cs.len(),
{
    if cs.len() == 0 {
        Seq::empty()
    } else {
        join_step(join(cs.drop_last()), cs.last())
    }
}

/// How a component moves the depth below the home directory.
pub open spec fn comp_delta(c: ComponentView) -> int {
    match c {
        ComponentView::Normal(_) => 1,
        ComponentView::ParentDir => -1,
        _ => 0,
    }
}

/// The depth below the starting directory that the components reach.
pub open spec fn net_depth(cs: Seq<ComponentView>) -> int
    decreases cs.len(),
{
    if cs.len() == 0 {
        0
    } else {
        net_depth(cs.drop_last()) + comp_delta(cs.last())
    }
}

/// The components never name the root directory and never climb above the
/// starting directory, not even midway.
pub open spec fn depth_safe(cs: Seq<ComponentView>) -> bool {
    &&& forall|i: int| 0 <= i < cs.len() ==> !(#[trigger] cs[i] is RootDir)
    &&& forall|k: int| 0 <= k <= cs.len() ==> #[trigger] net_depth(cs.take(k)) >= 0
}

/// `s` padded with zero bytes to the size of a host path buffer.
pub open spec fn padded(s: Seq<u8>) -> Seq<u8> {
    s + Seq::new((PATH_MAX - s.len()) as nat, |i: int| 0u8)
}

/// The component a segment stands for.
pub fn segment_component(seg: Vec<u8>) -> (r: Option<OwnedComponent>)
    ensures
        r matches Some(c) ==> seg_component(seg@) == Some(c@),
        r is None ==> seg_component(seg@) is None,
{
    if seg.len() == 0 || (seg.len() == 1 && seg[0] == DOT) {
        assert(seg.len() == 1 ==> seg@ =~= seq![DOT]);
        None
    } else if seg.len() == 2 && seg[0] == DOT && seg[1] == DOT {
        assert(seg@ =~= seq![DOT, DOT]);
        Some(OwnedComponent::ParentDir)
    } else {
        assert(seg@ != seq![DOT]) by {
            if seg@ == seq![DOT] {
                assert(seg@.len() == 1);
            }
        }
        assert(seg@ != seq![DOT, DOT]) by {
            if seg@ == seq![DOT, DOT] {
                assert(seg@.len() == 2 && seg@[0] == DOT && seg@[1] == DOT);
            }
        }
        Some(OwnedComponent::Normal(seg))
    }
}

/// Splits a path into its components.
pub fn get_components(path: &[u8]) -> (r: Vec<OwnedComponent>)
    ensures
        view_comps(r@) == parse_path(path@),
{
    let mut comps: Vec<OwnedComponent> = Vec::new();
    if path.len() > 0 && path[0] == SLASH {
        comps.push(OwnedComponent::RootDir);
    } else if path.len() > 0 && path[0] == DOT && (path.len() == 1 || path[1] == SLASH) {
        comps.push(OwnedComponent::CurDir);
    }
    assert(view_comps(comps@) =~= path_prefix(path@));
    let mut cur: Vec<u8> = Vec::new();
    let mut i: usize = 0;
    while i < path.len()
        invariant
            i <= path@.len(),
            (view_comps(comps@), cur@) == scan(path@, i as nat),
        decreases path@.len() - i,
    {
        if path[i] == SLASH {
            let seg = cur;
            cur = Vec::new();
            let ghost before = view_comps(comps@);
            match segment_component(seg) {
                Some(c) => {
                    comps.push(c);
                    assert(view_comps(comps@) =~= before.push(c@));
                },
                None => {},
            }
        } else {
            cur.push(path[i]);
        }
        i += 1;
    }
    let ghost before = view_comps(comps@);
    match segment_component(cur) {
        Some(c) => {
            comps.push(c);
            assert(view_comps(comps@) =~= before.push(c@));
        },
        None => {},
    }
    comps
}

impl OwnedComponent {
    /// The bytes the component is written as.
    pub fn as_os_string(&self) -> (r: Vec<u8>)
        ensures
            r@ == comp_bytes(self@),
    {
        match self {
            OwnedComponent::RootDir => vec![SLASH],
            OwnedComponent::CurDir => vec![DOT],
            OwnedComponent::ParentDir => vec![DOT, DOT],
            OwnedComponent::Normal(v) => v.clone(),
        }
    }
}

/// The path that the components spell.
pub fn join_components(comps: &Vec<OwnedComponent>) -> (r: Vec<u8>)
    ensures
        r@ == join(view_comps(comps@)),
{
    let mut buf: Vec<u8> = Vec::new();
    let mut i: usize = 0;
    while i < comps.len()
        invariant
            i <= comps@.len(),
            buf@ == join(view_comps(comps@).take(i as int)),
        decreases comps@.len() - i,
    {
        let ghost old_buf = buf@;
        assert(view_comps(comps@).take(i + 1).drop_last() =~= view_comps(comps@).take(i as int));
        match &comps[i] {
            OwnedComponent::RootDir => {
                buf = vec![SLASH];
            },
            c => {
                if buf.len() > 0 && buf[buf.len() - 1] != SLASH {
                    buf.push(SLASH);
                }
                let bytes = c.as_os_string();
                let mut j: usize = 0;
                let ghost base = buf@;
                while j < bytes.len()
                    invariant
                        j <= bytes@.len(),
                        buf@ == base + bytes@.take(j as int),
                    decreases bytes@.len() - j,
                {
                    buf.push(bytes[j]);
                    j += 1;
                    assert(buf@ =~= base + bytes@.take(j as int));
                }
                assert(bytes@.take(bytes@.len() as int) =~= bytes@);
            },
        }
        i += 1;
        assert(buf@ =~= join_step(old_buf, view_comps(comps@)[i - 1]));
    }
    assert(view_comps(comps@).take(comps@.len() as int) =~= view_comps(comps@));
    buf
}

/// A path as the list of its components.
pub struct OwnedComponents {
    pub inner: Vec<OwnedComponent>,
}

impl View for OwnedComponents {
    type V = Seq<ComponentView>;

    open spec fn view(&self) -> Seq<ComponentView> {
        view_comps(self.inner@)
    }
}

impl OwnedComponents {
    /// The empty path.
    pub fn new() -> (r: OwnedComponents)
        ensures
            r@ == Seq::<ComponentView>::empty(),
    {
        OwnedComponents { inner: Vec::new() }
    }

    /// The path the components spell.
    pub fn as_pathbuf(&self) -> (r: Vec<u8>)
        ensures
            r@ == join(self@),
    {
        join_components(&self.inner)
    }

    /// The components of the path `p`.
    pub fn parse(p: &[u8]) -> (r: OwnedComponents)
        ensures
            r@ == parse_path(p@),
    {
        OwnedComponents { inner: get_components(p) }
    }

    /// The host path the components spell, or `None` if it does not fit in
    /// a host path buffer with its terminating zero.
    pub fn unparse(self) -> (r: Option<HostPath>)
        ensures
            match r {
                Some(p) => join(self@).len() < PATH_MAX && p.view_bytes() == padded(join(self@)),
                None => join(self@).len() >= PATH_MAX,
            },
    {
        unparse(self.inner)
    }

    /// The component at `idx`.
    pub fn lookup(&self, idx: usize) -> (r: OwnedComponent)
        requires
            idx < self@.len(),
        ensures
            r@ == self@[idx as int],
    {
        self.inner[idx].clone_component()
    }

    /// Appends the component `c`.
    pub fn push(&mut self, c: OwnedComponent)
        ensures
            final(self)@ == old(self)@.push(c@),
    {
        let ghost before = self@;
        self.inner.push(c);
        assert(self@ =~= before.push(c@));
    }

    /// Removes and returns the last component, if any.
    pub fn pop(&mut self) -> (r: Option<OwnedComponent>)
        ensures
            old(self)@.len() == 0 ==> r is None && final(self)@ == old(self)@,
            old(self)@.len() > 0 ==> (r matches Some(c) && c@ == old(self)@.last() && final(self)@
                == old(self)@.drop_last()),
    {
        let ghost before = self@;
        let r = self.inner.pop();
        proof {
            if before.len() > 0 {
                assert(self@ =~= before.drop_last());
            }
        }
        r
    }

    /// The number of components.
    pub fn len(&self) -> (r: usize)
        ensures
            r == self@.len(),
    {
        self.inner.len()
    }
}

/// Whether a non-empty path is relative: it does not start at the root.
pub fn is_relative(c: &Vec<OwnedComponent>) -> (r: bool)
    requires
        c@.len() > 0,
    ensures
        r == !(view_comps(c@)[0] is RootDir),
{
    let start = &c[0];
    !matches!(start, OwnedComponent::RootDir)
}

/// Whether component `k` is the first where the components go wrong: it
/// names the root directory or takes the depth below zero, and none
/// before it does.
pub open spec fn first_unsafe(cs: Seq<ComponentView>, k: int) -> bool {
    &&& 0 <= k < cs.len()
    &&& (cs[k] is RootDir || net_depth(cs.take(k + 1)) < 0)
    &&& forall|j: int| 0 <= j < k ==> !(#[trigger] cs[j] is RootDir) && net_depth(cs.take(j + 1)) >= 0
}

/// The depth below the starting directory that the components reach. If
/// they ever go wrong, the walk stops at the first component that does:
/// the root directory gives `DEPTH_ERR`, a climb above the starting
/// directory the (negative) depth reached.
pub fn min_depth(components: &Vec<OwnedComponent>) -> (r: isize)
    requires
        components@.len() <= isize::MAX,
    ensures
        depth_safe(view_comps(components@)) ==> r == net_depth(view_comps(components@)),
        !depth_safe(view_comps(components@)) ==> r < 0 && exists|k: int|
            #[trigger] first_unsafe(view_comps(components@), k) && r == (if view_comps(components@)[k] is RootDir {
                DEPTH_ERR as int
            } else {
                net_depth(view_comps(components@).take(k + 1))
            }),
{
    let ghost cs = view_comps(components@);
    let mut curr_depth: isize = 0;
    let mut idx: usize = 0;
    while idx < components.len()
        invariant
            idx <= components@.len(),
            components@.len() <= isize::MAX,
            cs == view_comps(components@),
            curr_depth == net_depth(cs.take(idx as int)),
            0 <= curr_depth <= idx,
            forall|i: int| 0 <= i < idx ==> !(#[trigger] cs[i] is RootDir),
            forall|k: int| 0 <= k <= idx ==> #[trigger] net_depth(cs.take(k)) >= 0,
        decreases components@.len() - idx,
    {
        assert(cs.take(idx + 1).drop_last() =~= cs.take(idx as int));
        match &components[idx] {
            OwnedComponent::RootDir => {
                assert(cs[idx as int] is RootDir);
                proof {
                    assert forall|j: int| 0 <= j < idx implies !(#[trigger] cs[j] is RootDir) && net_depth(cs.take(j + 1)) >= 0 by {
                        assert(net_depth(cs.take(j + 1)) >= 0);
                    }
                    assert(first_unsafe(cs, idx as int));
                }
                return DEPTH_ERR;
            },
            OwnedComponent::CurDir => {},
            OwnedComponent::ParentDir => {
                curr_depth -= 1;
            },
            OwnedComponent::Normal(_) => {
                curr_depth += 1;
            },
        }
        if curr_depth < 0 {
            assert(net_depth(cs.take(idx + 1)) < 0);
            proof {
                assert forall|j: int| 0 <= j < idx implies !(#[trigger] cs[j] is RootDir) && net_depth(cs.take(j + 1)) >= 0 by {
                    assert(net_depth(cs.take(j + 1)) >= 0);
                }
                assert(first_unsafe(cs, idx as int));
            }
            return curr_depth;
        }
        idx += 1;
    }
    assert(cs.take(components@.len() as int) =~= cs);
    curr_depth
}

/// A path handed to the host: zero-padded to the size of a host path
/// buffer.
pub struct HostPath {
    inner: Vec<u8>,
}

impl HostPath {
    pub closed spec fn view_bytes(&self) -> Seq<u8> {
        self.inner@
    }

    /// The zero-padded bytes of the path.
    pub fn as_bytes(&self) -> (r: &Vec<u8>)
        ensures
            r@ == self.view_bytes(),
    {
        &self.inner
    }
}

/// The host path the components spell, or `None` if it does not fit in a
/// host path buffer with its terminating zero.
pub fn unparse(c: Vec<OwnedComponent>) -> (r: Option<HostPath>)
    ensures
        match r {
            Some(p) => join(view_comps(c@)).len() < PATH_MAX && p.view_bytes() == padded(join(view_comps(c@))),
            None => join(view_comps(c@)).len() >= PATH_MAX,
        },
{
    let s = join_components(&c);
    if s.len() >= PATH_MAX {
        return None;
    }
    let mut out = s;
    let ghost base = out@;
    while out.len() < PATH_MAX
        invariant
            base.len() <= out@.len() <= PATH_MAX,
            out@ == base + Seq::new((out@.len() - base.len()) as nat, |i: int| 0u8),
        decreases PATH_MAX - out@.len(),
    {
        out.push(0u8);
        assert(out@ =~= base + Seq::new((out@.len() - base.len()) as nat, |i: int| 0u8));
    }
    Some(HostPath { inner: out })
}

/// Whether a resolved path may be handed to the host: it has components,
/// stays inside the home directory, and fits in a host path buffer.
pub open spec fn sandboxed_components(cs: Seq<ComponentView>) -> bool {
    &&& cs.len() > 0
    &&& depth_safe(cs)
    &&& join(cs).len() < PATH_MAX
}

/// A host path that may be handed to the host: relative, never climbing
/// above the home directory, and short enough for a host path buffer with
/// its terminating zero. Only `finish_path` makes one.
pub struct SandboxedPath {
    path: HostPath,
    comps: Ghost<Seq<ComponentView>>,
}

impl SandboxedPath {
    /// The components the path was made of.
    pub closed spec fn components(&self) -> Seq<ComponentView> {
        self.comps@
    }

    /// The zero-padded bytes handed to the host.
    pub closed spec fn view_bytes(&self) -> Seq<u8> {
        self.path.view_bytes()
    }

    /// What holds of every value of the type.
    #[verifier::type_invariant]
    pub open spec fn sandboxed(&self) -> bool {
        &&& sandboxed_components(self.components())
        &&& self.view_bytes() == padded(join(self.components()))
    }

    /// The zero-padded bytes handed to the host.
    pub fn as_bytes(&self) -> (r: &Vec<u8>)
        ensures
            r@ == self.view_bytes(),
            self.sandboxed(),
    {
        proof {
            use_type_invariant(self);
        }
        self.path.as_bytes()
    }
}

/// The checks that end a resolution: the components must be a relative
/// path that stays inside the home directory (`Enotcapable` otherwise)
/// and fit in a host path buffer (`Enametoolong` otherwise).
pub fn finish_path(c: Vec<OwnedComponent>) -> (r: RuntimeResult<SandboxedPath>)
    requires
        c@.len() <= isize::MAX,
    ensures
        match r {
            Ok(p) => p.components() == view_comps(c@) && p.sandboxed(),
            Err(e) => {
                ||| (!(view_comps(c@).len() > 0 && depth_safe(view_comps(c@))) && e == RuntimeError::Enotcapable)
                ||| (view_comps(c@).len() > 0 && depth_safe(view_comps(c@)) && join(view_comps(c@)).len()
                    >= PATH_MAX && e == RuntimeError::Enametoolong)
            },
        },
{
    if c.len() <= 0 || !is_relative(&c) || min_depth(&c) < 0 {
        proof {
            if view_comps(c@).len() > 0 && depth_safe(view_comps(c@)) {
                assert(!(view_comps(c@)[0] is RootDir));
                assert(net_depth(view_comps(c@).take(view_comps(c@).len() as int)) >= 0);
                assert(view_comps(c@).take(view_comps(c@).len() as int) =~= view_comps(c@));
            }
        }
        return Err(RuntimeError::Enotcapable);
    }
    proof {
        assert(depth_safe(view_comps(c@)));
    }
    let ghost cs = view_comps(c@);
    match unparse(c) {
        Some(result_arr) => Ok(SandboxedPath { path: result_arr, comps: Ghost(cs) }),
        None => Err(RuntimeError::Enametoolong),
    }
}


impl OwnedComponent {
    pub fn clone_component(&self) -> (r: OwnedComponent)
        ensures
            r@ == self@,
    {
        match self {
            OwnedComponent::RootDir => OwnedComponent::RootDir,
            OwnedComponent::CurDir => OwnedComponent::CurDir,
            OwnedComponent::ParentDir => OwnedComponent::ParentDir,
            OwnedComponent::Normal(v) => OwnedComponent::Normal(v.clone()),
        }
    }
}

/// Components still to be processed: those of the path itself (the first
/// frame) or of a symbolic link being expanded.
struct Frame {
    comps: Vec<OwnedComponent>,
    idx: usize,
}

/// The components of a frame still to be processed.
spec fn frame_rest(f: Frame) -> Seq<ComponentView> {
    view_comps(f.comps@).skip(f.idx as int)
}

/// The components still to be processed in `frames`, the top (last) frame
/// first.
spec fn frames_pending(frames: Seq<Frame>) -> Seq<ComponentView>
    decreases frames.len(),
{
    if frames.len() == 0 {
        Seq::empty()
    } else {
        frame_rest(frames.last()) + frames_pending(frames.drop_last())
    }
}

proof fn lemma_pending_covers_frames(frames: Seq<Frame>)
    requires
        frames.len() >= 1,
    ensures
        frames_pending(frames).len() >= frame_rest(frames[0]).len(),
        frames.len() >= 2 ==> frames_pending(frames).len() >= frame_rest(frames.last()).len() + frame_rest(
            frames[0],
        ).len(),
    decreases frames.len(),
{
    if frames.len() >= 2 {
        lemma_pending_covers_frames(frames.drop_last());
        assert(frames.drop_last()[0] == frames[0]);
    }
}

/// Whether the paths `join(cs[..1])`, ..., `join(cs[..n])` are all among
/// `cleared`.
pub open spec fn prefixes_cleared(cleared: Set<Seq<u8>>, cs: Seq<ComponentView>, n: int) -> bool {
    forall|i: int| 0 <= i < n ==> cleared.contains(#[trigger] join(cs.take(i + 1)))
}

/// The resolution of a path against the home directory, one component at
/// a time. Every component is appended to the resolved path and the host
/// is asked whether the result is a symbolic link (`next_query`); if it
/// is, the caller passes the link's target (`answer`), the component is
/// dropped and the target's components are processed in its place. With
/// `should_follow` unset, the last component of the path is taken as it
/// is. Expanding `MAXSYMLINKS` links fails with `Eloop`.
pub struct PathExpander {
    out: Vec<OwnedComponent>,
    frames: Vec<Frame>,
    num_symlinks: usize,
    should_follow: bool,
    awaiting: bool,
    failed: Option<RuntimeError>,
    source: Ghost<Seq<u8>>,
    cleared: Ghost<Set<Seq<u8>>>,
    unchecked: Ghost<nat>,
}

impl PathExpander {
    /// The components resolved so far.
    pub closed spec fn resolved(&self) -> Seq<ComponentView> {
        view_comps(self.out@)
    }

    /// The path being resolved.
    pub closed spec fn source(&self) -> Seq<u8> {
        self.source@
    }

    /// Whether a symbolic link in the last component of the path is
    /// followed.
    pub closed spec fn follows(&self) -> bool {
        self.should_follow
    }

    /// The components still to be processed, in order: the rest of the
    /// link target being expanded first, then what was pending when it was
    /// met, down to the rest of the path's own components.
    pub closed spec fn pending(&self) -> Seq<ComponentView> {
        frames_pending(self.frames@)
    }

    /// Whether the one component left is the path's own last one.
    pub closed spec fn only_last_left(&self) -> bool {
        &&& self.frames@.len() > 0
        &&& frame_rest(self.frames@[0]).len() == 1
        &&& self.pending().len() == 1
    }

    /// The paths the host answered are not symbolic links.
    pub closed spec fn not_links(&self) -> Set<Seq<u8>> {
        self.cleared@
    }

    /// How many of the last resolved components the host was not asked
    /// about (or has not answered for) yet: 0 or 1.
    pub closed spec fn unchecked(&self) -> nat {
        self.unchecked@
    }

    /// Nothing is resolved yet of the path `path`.
    pub open spec fn starts(&self, path: Seq<u8>, should_follow: bool) -> bool {
        &&& self.wf()
        &&& self.source() == path
        &&& self.follows() == should_follow
        &&& self.resolved() == Seq::<ComponentView>::empty()
        &&& self.pending() == parse_path(path)
        &&& self.links_expanded() == 0
        &&& !self.awaiting()
        &&& self.failure() is None
        &&& self.not_links() == Set::<Seq<u8>>::empty()
        &&& self.unchecked() == 0
    }

    /// The number of symbolic links expanded so far.
    pub closed spec fn links_expanded(&self) -> nat {
        self.num_symlinks as nat
    }

    /// Whether the host's answer for the last resolved component is awaited.
    pub closed spec fn awaiting(&self) -> bool {
        self.awaiting
    }

    /// The error the resolution stopped with, if any.
    pub closed spec fn failure(&self) -> Option<RuntimeError> {
        self.failed
    }

    /// Whether no component is left to process.
    pub closed spec fn exhausted(&self) -> bool {
        self.frames@.len() == 0
    }

    pub closed spec fn wf(&self) -> bool {
        &&& self.num_symlinks == 0 ==> self.frames@.len() <= 1
        &&& self.num_symlinks == 0 ==> self.resolved() + self.pending() == parse_path(self.source@)
        &&& self.num_symlinks <= MAXSYMLINKS
        &&& self.failed is None ==> self.num_symlinks < MAXSYMLINKS
        &&& self.failed is Some ==> !self.awaiting
        &&& self.awaiting ==> self.out@.len() > 0
        &&& forall|i: int| 0 <= i < self.frames@.len() ==> #[trigger] self.frames@[i].idx <= self.frames@[i].comps@.len()
        &&& self.unchecked@ <= 1
        &&& self.unchecked@ <= self.out@.len()
        &&& self.awaiting ==> self.unchecked@ == 1
        &&& !self.awaiting && self.unchecked@ == 1 ==> self.pending().len() == 0 && !self.should_follow
        &&& prefixes_cleared(self.cleared@, self.resolved(), self.out@.len() - self.unchecked@)
    }

    /// Starts resolving `path`.
    pub fn new(path: &[u8], should_follow: bool) -> (r: PathExpander)
        ensures
            r.starts(path@, should_follow),
    {
        let comps = get_components(path);
        let mut frames: Vec<Frame> = Vec::new();
        frames.push(Frame { comps, idx: 0 });
        assert(view_comps(frames@[0].comps@).skip(0) =~= view_comps(frames@[0].comps@));
        assert(view_comps(Seq::<OwnedComponent>::empty()) =~= Seq::<ComponentView>::empty());
        assert(frames@.drop_last() =~= Seq::<Frame>::empty());
        assert(frames_pending(frames@.drop_last()) =~= Seq::<ComponentView>::empty());
        assert(frames@.last() == frames@[0]);
        assert(frame_rest(frames@.last()) =~= parse_path(path@));
        assert(frames_pending(frames@) =~= parse_path(path@));
        PathExpander {
            out: Vec::new(),
            frames,
            num_symlinks: 0,
            should_follow,
            awaiting: false,
            failed: None,
            source: Ghost(path@),
            cleared: Ghost(Set::empty()),
            unchecked: Ghost(0),
        }
    }

    /// Moves to the next component. Components are taken from `pending` in
    /// order and appended to the resolved path. The result is the path to
    /// ask the host about (the resolved components, the new one last), or
    /// `None` once the resolution is over: after a failure, when nothing is
    /// pending, or when the one component left is the path's own last one
    /// and the path's last link is not followed, in which case that
    /// component is appended without asking.
    pub fn next_query(&mut self) -> (r: Option<Vec<u8>>)
        requires
            old(self).wf(),
            !old(self).awaiting(),
        ensures
            final(self).wf(),
            final(self).source() == old(self).source(),
            final(self).follows() == old(self).follows(),
            final(self).links_expanded() == old(self).links_expanded(),
            final(self).failure() == old(self).failure(),
            final(self).not_links() == old(self).not_links(),
            old(self).failure() is Some ==> {
                &&& r is None
                &&& !final(self).awaiting()
                &&& final(self).resolved() == old(self).resolved()
                &&& final(self).pending() == old(self).pending()
                &&& final(self).unchecked() == old(self).unchecked()
            },
            old(self).failure() is None ==> if old(self).pending().len() == 0 {
                &&& r is None
                &&& !final(self).awaiting()
                &&& final(self).exhausted()
                &&& final(self).resolved() == old(self).resolved()
                &&& final(self).unchecked() == old(self).unchecked()
            } else if !old(self).follows() && old(self).only_last_left() {
                &&& r is None
                &&& !final(self).awaiting()
                &&& final(self).exhausted()
                &&& final(self).pending().len() == 0
                &&& final(self).resolved() == old(self).resolved().push(old(self).pending()[0])
                &&& final(self).unchecked() == 1
            } else {
                &&& r matches Some(p) && p@ == join(final(self).resolved())
                &&& final(self).awaiting()
                &&& final(self).resolved() == old(self).resolved().push(old(self).pending()[0])
                &&& final(self).pending() == old(self).pending().drop_first()
                &&& final(self).unchecked() == 1
            },
    {
        if self.failed.is_some() {
            return None;
        }
        let ghost o = *self;
        let ghost mut pushed = false;
        loop
            invariant
                self.wf(),
                o == *old(self),
                !self.awaiting,
                self.failed is None,
                o.failed is None,
                self.num_symlinks == o.num_symlinks,
                self.source == o.source,
                self.should_follow == o.should_follow,
                self.cleared == o.cleared,
                !pushed ==> {
                    &&& self.out@ == o.out@
                    &&& self.unchecked == o.unchecked
                    &&& self.frames@.len() <= o.frames@.len()
                    &&& self.frames@ == o.frames@.take(self.frames@.len() as int)
                    &&& self.pending() == o.pending()
                },
                pushed ==> {
                    &&& self.frames@.len() == 0
                    &&& !o.should_follow
                    &&& o.only_last_left()
                    &&& self.resolved() == o.resolved().push(o.pending()[0])
                    &&& self.unchecked@ == 1
                },
            decreases self.frames@.len(),
        {
            let nframes = self.frames.len();
            if nframes == 0 {
                proof {
                    if !pushed {
                        assert(o.pending() =~= Seq::<ComponentView>::empty());
                    }
                }
                return None;
            }
            let top = nframes - 1;
            let idx = self.frames[top].idx;
            let len = self.frames[top].comps.len();
            let ghost frames0 = self.frames@;
            assert(frames0.last() == frames0[top as int]);
            assert(frames_pending(frames0) == frame_rest(frames0.last()) + frames_pending(frames0.drop_last()));
            if idx >= len {
                assert(frame_rest(frames0.last()) =~= Seq::<ComponentView>::empty());
                self.frames.pop();
                assert(self.frames@ =~= frames0.drop_last());
                assert(self.pending() =~= frames_pending(frames0));
                proof {
                    assert(self.frames@ =~= o.frames@.take(self.frames@.len() as int));
                    if self.num_symlinks == 0 {
                        assert(self.resolved() + self.pending() =~= o.resolved() + o.pending());
                    }
                }
                continue;
            }
            let c = self.frames[top].comps[idx].clone_component();
            let ghost before = view_comps(self.out@);
            let ghost rest0 = frame_rest(frames0.last());
            assert(rest0[0] == c@);
            assert(o.unchecked@ == 0);
            let mut frame = self.frames.pop().unwrap();
            frame.idx = idx + 1;
            self.frames.push(frame);
            self.out.push(c);
            proof {
                self.unchecked = Ghost(1);
            }
            assert(view_comps(self.out@) =~= before.push(c@));
            assert(self.frames@.drop_last() =~= frames0.drop_last());
            assert(frame_rest(self.frames@.last()) =~= rest0.drop_first());
            assert(self.pending() =~= o.pending().drop_first());
            assert(o.pending()[0] == c@);
            assert(prefixes_cleared(self.cleared@, self.resolved(), self.out@.len() - 1)) by {
                assert forall|i: int| 0 <= i < self.out@.len() - 1 implies self.cleared@.contains(
                    #[trigger] join(self.resolved().take(i + 1)),
                ) by {
                    assert(self.resolved().take(i + 1) =~= before.take(i + 1));
                }
            }
            proof {
                if self.num_symlinks == 0 {
                    assert(self.resolved() + self.pending() =~= before + o.pending());
                }
            }
            if !self.should_follow && nframes == 1 && idx + 1 == len {
                // The last component of the path is not followed.
                proof {
                    assert(frames0 =~= o.frames@.take(1));
                    assert(frames0[0] == o.frames@[0]);
                    assert(frames0.drop_last() =~= Seq::<Frame>::empty());
                    assert(rest0.len() == 1);
                }
                self.frames.pop();
                assert(self.frames@ =~= Seq::<Frame>::empty());
                proof {
                    pushed = true;
                    if self.num_symlinks == 0 {
                        assert(self.pending() =~= Seq::<ComponentView>::empty());
                        assert(self.resolved() + self.pending() =~= self.resolved());
                    }
                }
                continue;
            }
            proof {
                if !o.should_follow && o.only_last_left() {
                    lemma_pending_covers_frames(frames0);
                    assert(frames0[0] == o.frames@[0]);
                    assert(nframes == 1);
                    assert(false);
                }
            }
            self.awaiting = true;
            let p = join_components(&self.out);
            return Some(p);
        }
    }

    /// Passes the host's answer for the last resolved component: the
    /// target of the symbolic link it names, or `None` if it names none.
    /// A link is dropped from the resolved path and its target's components
    /// are processed before what was pending; a component that is no link
    /// is kept, and the path asked about is recorded as not a link.
    pub fn answer(&mut self, link: Option<Vec<u8>>)
        requires
            old(self).wf(),
            old(self).awaiting(),
        ensures
            final(self).wf(),
            final(self).source() == old(self).source(),
            final(self).follows() == old(self).follows(),
            !final(self).awaiting(),
            final(self).unchecked() == 0,
            match link {
                None => {
                    &&& final(self).resolved() == old(self).resolved()
                    &&& final(self).pending() == old(self).pending()
                    &&& final(self).links_expanded() == old(self).links_expanded()
                    &&& final(self).failure() is None
                    &&& final(self).not_links() == old(self).not_links().insert(join(old(self).resolved()))
                },
                Some(t) => {
                    &&& final(self).resolved() == old(self).resolved().drop_last()
                    &&& final(self).links_expanded() == old(self).links_expanded() + 1
                    &&& final(self).not_links() == old(self).not_links()
                    &&& final(self).failure() == (if old(self).links_expanded() + 1 >= MAXSYMLINKS {
                        Some(RuntimeError::Eloop)
                    } else {
                        None
                    })
                    &&& old(self).links_expanded() + 1 < MAXSYMLINKS ==> final(self).pending() == parse_path(t@)
                        + old(self).pending()
                },
            },
    {
        let ghost o = *self;
        self.awaiting = false;
        proof {
            self.unchecked = Ghost(0);
        }
        match link {
            None => {
                proof {
                    self.cleared = Ghost(o.cleared@.insert(join(o.resolved())));
                    assert(prefixes_cleared(self.cleared@, self.resolved(), self.out@.len() as int)) by {
                        assert forall|i: int| 0 <= i < self.out@.len() implies self.cleared@.contains(
                            #[trigger] join(self.resolved().take(i + 1)),
                        ) by {
                            if i == self.out@.len() - 1 {
                                assert(self.resolved().take(i + 1) =~= o.resolved());
                            }
                        }
                    }
                }
            },
            Some(target) => {
                let ghost before = view_comps(self.out@);
                self.out.pop();
                assert(view_comps(self.out@) =~= before.drop_last());
                assert(prefixes_cleared(self.cleared@, self.resolved(), self.out@.len() as int)) by {
                    assert forall|i: int| 0 <= i < self.out@.len() implies self.cleared@.contains(
                        #[trigger] join(self.resolved().take(i + 1)),
                    ) by {
                        assert(self.resolved().take(i + 1) =~= before.take(i + 1));
                    }
                }
                self.num_symlinks = self.num_symlinks + 1;
                if self.num_symlinks >= MAXSYMLINKS {
                    self.failed = Some(RuntimeError::Eloop);
                } else {
                    let comps = get_components(target.as_slice());
                    let ghost frames0 = self.frames@;
                    self.frames.push(Frame { comps, idx: 0 });
                    assert(self.frames@.drop_last() =~= frames0);
                    assert(frame_rest(self.frames@.last()) =~= parse_path(target@));
                }
            },
        }
    }

    /// The resolved components, or the error the resolution stopped with.
    pub fn finish(self) -> (r: RuntimeResult<Vec<OwnedComponent>>)
        requires
            self.wf(),
            !self.awaiting(),
        ensures
            match self.failure() {
                Some(e) => r == Err::<Vec<OwnedComponent>, RuntimeError>(e),
                None => r matches Ok(v) && view_comps(v@) == self.resolved(),
            },
    {
        match self.failed {
            Some(e) => Err(e),
            None => Ok(self.out),
        }
    }
}

/// A resolution in which the host named no component a symbolic link, once
/// no component is left, has resolved the path to the path's own
/// components.
pub proof fn lemma_no_links_resolves_to_components(e: &PathExpander)
    requires
        e.wf(),
        e.exhausted(),
        e.links_expanded() == 0,
    ensures
        e.resolved() == parse_path(e.source()),
{
    assert(e.pending() =~= Seq::<ComponentView>::empty());
    assert(e.resolved() + e.pending() =~= e.resolved());
}

/// Every resolved component, except the last when the host has not been
/// asked about it, was answered not to be a symbolic link: the path up to
/// it is among `not_links`. Only a last component of the path that is not
/// followed, or one whose answer is awaited, can be unasked; when the
/// last link is followed and no answer is awaited, every component was
/// asked.
pub proof fn lemma_resolved_components_checked(e: &PathExpander)
    requires
        e.wf(),
    ensures
        e.unchecked() <= 1,
        e.unchecked() <= e.resolved().len(),
        forall|i: int|
            0 <= i < e.resolved().len() - e.unchecked() ==> e.not_links().contains(
                #[trigger] join(e.resolved().take(i + 1)),
            ),
        !e.awaiting() && e.follows() ==> e.unchecked() == 0,
{
}

} // verus!
