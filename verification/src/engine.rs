//! The cycling engine: the slideshow's state machine.
//!
//! The engine owns the image order, a wrap-around cursor, the run mode and
//! the monitor count.  Commands are applied in arrival order; a period
//! elapse advances only while running, while an explicit `Next` advances
//! even while stopped.  Everything the engine decides is returned as an
//! [`EngineAction`] for the surrounding process to carry out, so the
//! decisions here are checked for every input.

use crate::messages::{ClientMessage, Config, Init, ServerMessage};
use rand::seq::SliceRandom;
use vstd::arithmetic::div_mod::{lemma_add_mod_noop, lemma_small_mod};
use vstd::prelude::*;

verus! {

/// Whether the engine advances on its own at each period boundary.
#[derive(Debug, Clone, Copy, PartialEq, Eq, Structural)]
pub enum State {
    Running,
    Stopped,
}

/// A fixed, ordered image sequence with a cursor that wraps around
/// indefinitely.  Image references are filesystem paths, as bytes.
pub struct LoopingIter {
    arr: Vec<Vec<u8>>,
    ii: usize,
}

/// The mathematical content of a [`LoopingIter`].
pub struct LoopingIterView {
    pub images: Seq<Seq<u8>>,
    pub cursor: nat,
}

impl LoopingIterView {
    /// The cursor always points into the sequence, and sits at zero when
    /// the sequence is empty.
    pub open spec fn wf(self) -> bool {
        if self.images.len() == 0 {
            self.cursor == 0
        } else {
            self.cursor < self.images.len()
        }
    }
}

impl View for LoopingIter {
    type V = LoopingIterView;

    closed spec fn view(&self) -> LoopingIterView {
        LoopingIterView { images: self.arr.deep_view(), cursor: self.ii as nat }
    }
}

impl LoopingIter {
    /// Starts a traversal of `arr` from its first element.
    pub fn new(arr: Vec<Vec<u8>>) -> (r: LoopingIter)
        ensures
            r@.wf(),
            r@.images == arr.deep_view(),
            r@.cursor == 0,
    {
        LoopingIter { arr, ii: 0 }
    }

    /// How many images the traversal runs over.
    pub fn len(&self) -> (r: usize)
        ensures
            r == self@.images.len(),
    {
        self.arr.len()
    }

    /// Yields the image under the cursor and advances, wrapping at the
    /// end; yields nothing when the sequence is empty.
    pub fn next(&mut self) -> (r: Option<Vec<u8>>)
        requires
            old(self)@.wf(),
        ensures
            final(self)@.wf(),
            final(self)@.images == old(self)@.images,
            old(self)@.images.len() == 0 ==> r is None && final(self)@.cursor == 0,
            old(self)@.images.len() > 0 ==> (r matches Some(img) && img@ == old(
                self,
            )@.images[old(self)@.cursor as int] && final(self)@.cursor == (old(self)@.cursor + 1)
                % old(self)@.images.len()),
    {
        if self.arr.len() == 0 {
            return None;
        }
        let img = self.arr[self.ii].clone();
        proof {
            assert(img@ =~= self@.images[self.ii as int]);
        }
        self.ii = (self.ii + 1) % self.arr.len();
        Some(img)
    }
}

/// What the engine asks its surroundings to do after a step: the engine
/// itself never touches the outside world.
pub enum EngineAction {
    /// Nothing to carry out.
    Nothing,
    /// Hand exactly these image paths, one per monitor slot, to the
    /// wallpaper-setting collaborator.
    SetBackground(Vec<Vec<u8>>),
    /// Enumerate the images under this snapshot's directory and hand them
    /// back through [`Engine::apply_update`].
    Reload(Config),
    /// The step could not act; surface this acknowledgement-style error.
    Failed(ServerMessage),
}

/// The images one advance action selects: `m` consecutive entries starting
/// under the cursor, wrapping around the end of the sequence.
pub open spec fn spec_selection(images: Seq<Seq<u8>>, cursor: nat, m: nat) -> Seq<Seq<u8>>
    recommends
        images.len() > 0,
{
    Seq::new(m, |j: int| images[(cursor + j) % (images.len() as int)])
}

/// The cursor after `k` advance actions from the first position, each
/// moving `m` steps around a sequence of `n` images.
pub open spec fn spec_cursor_after(k: nat, m: nat, n: nat) -> nat
    recommends
        n > 0,
    decreases k,
{
    if k == 0 {
        0
    } else {
        (spec_cursor_after((k - 1) as nat, m, n) + m) % n
    }
}

/// Cursor wrap: after `k` successive advance actions from the start of a
/// sequence of `n` images with `m` monitors, the cursor stands at
/// `(k * m) % n`.
pub proof fn lemma_cursor_wrap(k: nat, m: nat, n: nat)
    requires
        n > 0,
        m <= n,
    ensures
        spec_cursor_after(k, m, n) == (k * m) % n,
    decreases k,
{
    if k == 0 {
        assert(k * m == 0) by (nonlinear_arith)
            requires
                k == 0,
        ;
        lemma_small_mod(0, n);
    } else {
        let k1 = (k - 1) as nat;
        lemma_cursor_wrap(k1, m, n);
        assert(k1 * m + m == k * m) by (nonlinear_arith)
            requires
                k1 == k - 1,
        ;
        assert(spec_cursor_after(k, m, n) == (spec_cursor_after(k1, m, n) + m) % n);
        assert(spec_cursor_after(k1, m, n) == (k1 * m) % n);
        lemma_add_mod_left((k1 * m) as int, m as int, n as int);
        assert(((k1 * m) % n + m) % n == (k1 * m + m) % n);
    }
}

/// Reducing the left summand before the outer reduction makes no
/// difference.
proof fn lemma_add_mod_left(x: int, y: int, m: int)
    requires
        0 < m,
    ensures
        (x % m + y) % m == (x + y) % m,
{
    lemma_add_mod_noop(x, y, m);
    lemma_add_mod_noop(x % m, y, m);
    vstd::arithmetic::div_mod::lemma_mod_twice(x, m);
}

/// Relies on `rand::seq::SliceRandom::shuffle` (seeded from
/// `rand::thread_rng`), which reorders the slice in place by swaps: the
/// result holds exactly the images that went in, in some order.
#[verifier::external_body]
fn shuffle_images(images: &mut Vec<Vec<u8>>)
    ensures
        final(images).deep_view().to_multiset() == old(images).deep_view().to_multiset(),
        final(images)@.len() == old(images)@.len(),
{
    images.shuffle(&mut rand::thread_rng());
}

/// The slideshow engine.  It owns its state exclusively; the listener
/// reaches it only through the command queue, and the outside world only
/// through the [`EngineAction`] values it returns.
pub struct Engine {
    images_iter: LoopingIter,
    state: State,
    wallpaper_change_sec: u64,
    init: Init,
    num_monitors: usize,
}

/// The mathematical content of an [`Engine`].
pub struct EngineView {
    pub images: Seq<Seq<u8>>,
    pub cursor: nat,
    pub state: State,
    pub wallpaper_change_sec: u64,
    pub num_monitors: usize,
}

impl EngineView {
    /// The cursor points into the image sequence (or sits at zero when
    /// there are no images).
    pub open spec fn wf(self) -> bool {
        if self.images.len() == 0 {
            self.cursor == 0
        } else {
            self.cursor < self.images.len()
        }
    }

}

/// What `Stop` does to the engine: the mode flips to stopped and nothing
/// else moves.
pub open spec fn spec_apply_stop(v: EngineView) -> EngineView {
    EngineView { state: State::Stopped, ..v }
}

/// What `Start` does to the engine: the mode flips to running and nothing
/// else moves.
pub open spec fn spec_apply_start(v: EngineView) -> EngineView {
    EngineView { state: State::Running, ..v }
}

/// What one advance action does to the engine: the cursor moves past one
/// selection, wrapping; with no images nothing moves.
pub open spec fn spec_apply_next(v: EngineView) -> EngineView {
    if v.images.len() == 0 {
        v
    } else {
        EngineView { cursor: (v.cursor + v.num_monitors as nat) % v.images.len(), ..v }
    }
}

/// State transitions: the sequence `Stop`, `Next`, `Start` ends running,
/// and the `Next` advanced the cursor by the monitor count despite
/// arriving while stopped.  (An empty image set, on which nothing can
/// advance, is the empty-set guard's subject.)
pub proof fn lemma_stop_next_start(v: EngineView)
    requires
        v.wf(),
        v.images.len() > 0,
    ensures
        spec_apply_start(spec_apply_next(spec_apply_stop(v))).state is Running,
        spec_apply_start(spec_apply_next(spec_apply_stop(v))).cursor == (v.cursor
            + v.num_monitors as nat) % v.images.len(),
        spec_apply_next(spec_apply_stop(v)).state is Stopped,
        spec_apply_start(spec_apply_next(spec_apply_stop(v))).images == v.images,
        spec_apply_start(spec_apply_next(spec_apply_stop(v))).num_monitors == v.num_monitors,
{
}

impl View for Engine {
    type V = EngineView;

    closed spec fn view(&self) -> EngineView {
        EngineView {
            images: self.images_iter@.images,
            cursor: self.images_iter@.cursor,
            state: self.state,
            wallpaper_change_sec: self.wallpaper_change_sec,
            num_monitors: self.num_monitors,
        }
    }
}

impl Engine {
    /// Builds the engine from the startup snapshot and the images the
    /// enumeration collaborator found under its directory.  The engine
    /// starts running at the first image; when the snapshot asks for a
    /// shuffle, the order is a fresh permutation of what came in.
    pub fn new(init: Init, images: Vec<Vec<u8>>) -> (r: Engine)
        ensures
            r@.wf(),
            r@.state is Running,
            r@.cursor == 0,
            r@.num_monitors == init.config@.num_monitors,
            r@.wallpaper_change_sec == init.config@.switch_interval_sec,
            r@.images.to_multiset() == images.deep_view().to_multiset(),
            r@.images.len() == images@.len(),
            !init.config@.shuffle ==> r@.images == images.deep_view(),
    {
        let wallpaper_change_sec = init.config.switch_interval();
        let num_monitors = init.config.num_monitors();
        let mut imgs = images;
        if init.config.shuffle() {
            shuffle_images(&mut imgs);
        }
        let images_iter = LoopingIter::new(imgs);
        Engine { init, images_iter, num_monitors, state: State::Running, wallpaper_change_sec }
    }

    /// Whether the engine advances at period boundaries.
    pub fn is_running(&self) -> (r: bool)
        ensures
            r == (self@.state is Running),
    {
        matches!(self.state, State::Running)
    }

    /// Where the cursor stands.
    pub fn cursor(&self) -> (r: usize)
        ensures
            r == self@.cursor,
    {
        self.images_iter.ii
    }

    /// How many images the engine cycles over.
    pub fn num_images(&self) -> (r: usize)
        ensures
            r == self@.images.len(),
    {
        self.images_iter.len()
    }

    /// How many wallpaper slots one advance fills.
    pub fn num_monitors(&self) -> (r: usize)
        ensures
            r == self@.num_monitors,
    {
        self.num_monitors
    }

    /// The advance period, in seconds.
    pub fn switch_interval_sec(&self) -> (r: u64)
        ensures
            r == self@.wallpaper_change_sec,
    {
        self.wallpaper_change_sec
    }

    /// Selects the next images, one per monitor slot, and advances the
    /// cursor past them.  With no images there is nothing to select: the
    /// engine reports `NoImagesFound`, stays put, and asks for no external
    /// invocation.
    pub fn next(&mut self) -> (r: Result<Vec<Vec<u8>>, ServerMessage>)
        requires
            old(self)@.wf(),
        ensures
            final(self)@.wf(),
            final(self)@ == spec_apply_next(old(self)@),
            old(self)@.images.len() == 0 ==> r == Err::<Vec<Vec<u8>>, ServerMessage>(
                ServerMessage::NoImagesFound,
            ),
            old(self)@.images.len() > 0 ==> (r matches Ok(sel) && sel.deep_view()
                == spec_selection(
                old(self)@.images,
                old(self)@.cursor,
                old(self)@.num_monitors as nat,
            )),
    {
        let n = self.images_iter.len();
        if n == 0 {
            return Err(ServerMessage::NoImagesFound);
        }
        let ghost imgs = self@.images;
        let ghost c0 = self@.cursor;
        proof {
            lemma_small_mod(c0, imgs.len() as nat);
        }
        let mut selected: Vec<Vec<u8>> = Vec::new();
        let mut k: usize = 0;
        while k < self.num_monitors
            invariant
                0 < n == imgs.len(),
                k <= self.num_monitors,
                self@.images == imgs,
                self@.num_monitors == old(self)@.num_monitors,
                self@.state == old(self)@.state,
                self@.wallpaper_change_sec == old(self)@.wallpaper_change_sec,
                self@.wf(),
                self@.cursor == (c0 + k as nat) % imgs.len(),
                selected.deep_view() =~= spec_selection(imgs, c0, k as nat),
            decreases self.num_monitors - k,
        {
            let img = self.images_iter.next().unwrap();
            proof {
                assert(img.deep_view() =~= img@);
            }
            let ghost pre = selected.deep_view();
            let ghost pre_raw = selected@;
            proof {
                assert(pre.len() == k);
                assert(pre_raw.len() == k);
            }
            selected.push(img);
            proof {
                lemma_mod_step(c0 as int + k, imgs.len() as int);
                let ds = selected.deep_view();
                let ss = spec_selection(imgs, c0, (k + 1) as nat);
                assert(selected@ == pre_raw.push(img));
                assert(ds.len() == k + 1);
                assert forall|i: int| 0 <= i < k + 1 implies ds[i] == ss[i] by {
                    assert(ds[i] == selected@[i].deep_view());
                    if i < k {
                        assert(selected@[i] == pre_raw[i]);
                        assert(pre[i] == pre_raw[i].deep_view());
                        assert(pre[i] == spec_selection(imgs, c0, k as nat)[i]);
                    } else {
                        assert(selected@[i] == img);
                    }
                }
                assert(ds =~= ss);
            }
            k = k + 1;
        }
        Ok(selected)
    }

    /// Runs one period boundary: while running this is one advance action;
    /// while stopped the elapse is a no-op.
    pub fn cycle(&mut self) -> (r: EngineAction)
        requires
            old(self)@.wf(),
        ensures
            final(self)@.wf(),
            old(self)@.state is Stopped ==> r is Nothing && final(self)@ == old(self)@,
            old(self)@.state is Running ==> final(self)@ == spec_apply_next(old(self)@),
            old(self)@.state is Running && old(self)@.images.len() == 0 ==> (r matches
                EngineAction::Failed(e) && e is NoImagesFound),
            old(self)@.state is Running && old(self)@.images.len() > 0 ==> (r matches
                EngineAction::SetBackground(sel) && sel.deep_view() == spec_selection(
                old(self)@.images,
                old(self)@.cursor,
                old(self)@.num_monitors as nat,
            )),
    {
        if matches!(self.state, State::Running) {
            match self.next() {
                Ok(sel) => EngineAction::SetBackground(sel),
                Err(e) => EngineAction::Failed(e),
            }
        } else {
            EngineAction::Nothing
        }
    }

    /// Applies one client command, in arrival order:
    /// `Start` and `Stop` switch the mode and touch nothing else; `Next`
    /// is one advance action even while stopped; `Update` asks the
    /// surroundings to enumerate the new snapshot's images, leaving the
    /// engine unchanged until they arrive.
    pub fn handle_message(&mut self, msg: ClientMessage) -> (r: EngineAction)
        requires
            old(self)@.wf(),
        ensures
            final(self)@.wf(),
            match msg {
                ClientMessage::Stop => final(self)@ == spec_apply_stop(old(self)@)
                    && r is Nothing,
                ClientMessage::Start => final(self)@ == spec_apply_start(old(self)@)
                    && r is Nothing,
                ClientMessage::Next => final(self)@ == spec_apply_next(old(self)@) && (if old(
                    self,
                )@.images.len() == 0 {
                    r matches EngineAction::Failed(e) && e is NoImagesFound
                } else {
                    r matches EngineAction::SetBackground(sel) && sel.deep_view()
                        == spec_selection(
                        old(self)@.images,
                        old(self)@.cursor,
                        old(self)@.num_monitors as nat,
                    )
                }),
                ClientMessage::Update(c) => final(self)@ == old(self)@ && (r matches EngineAction::Reload(c2)
                    && c2 == c),
            },
    {
        match msg {
            ClientMessage::Stop => {
                self.state = State::Stopped;
                EngineAction::Nothing
            },
            ClientMessage::Start => {
                self.state = State::Running;
                EngineAction::Nothing
            },
            ClientMessage::Next => match self.next() {
                Ok(sel) => EngineAction::SetBackground(sel),
                Err(e) => EngineAction::Failed(e),
            },
            ClientMessage::Update(c) => EngineAction::Reload(c),
        }
    }

    /// Installs the snapshot an `Update` command carried, once the
    /// surroundings have enumerated its image directory: the image set and
    /// monitor count are replaced, the cursor resets to the first
    /// position, a shuffle (when asked for) is a fresh permutation, and
    /// the interval and mode are preserved.
    pub fn apply_update(&mut self, config: Config, images: Vec<Vec<u8>>)
        ensures
            final(self)@.wf(),
            final(self)@.cursor == 0,
            final(self)@.state == old(self)@.state,
            final(self)@.wallpaper_change_sec == old(self)@.wallpaper_change_sec,
            final(self)@.num_monitors == config@.num_monitors,
            final(self)@.images.to_multiset() == images.deep_view().to_multiset(),
            final(self)@.images.len() == images@.len(),
            !config@.shuffle ==> final(self)@.images == images.deep_view(),
    {
        self.num_monitors = config.num_monitors();
        let mut imgs = images;
        if config.shuffle() {
            shuffle_images(&mut imgs);
        }
        self.images_iter = LoopingIter::new(imgs);
    }
}

/// Stepping once from a reduced cursor lands where stepping from the
/// unreduced position would.
proof fn lemma_mod_step(x: int, n: int)
    requires
        n >= 1,
    ensures
        (x % n + 1) % n == (x + 1) % n,
{
    lemma_add_mod_left(x, 1, n);
}

} // verus!
