//! The window registry: owns the model of all live platform windows, keyed by
//! an opaque window identifier, and tracks which window is the "main" window
//! and which currently has input focus.
//!
//! The platform work of building a native window is done by the caller; the
//! registry is handed a [`PlatformProbe`] (what the platform reported about
//! monitors and video modes) and the [`BuiltWindow`] description of the
//! window the platform produced, and decides and records everything else.

use vstd::prelude::*;

use crate::error::WindowsError;
use crate::geometry::Size;

verus! {

/// What the registry tracks of one live window: the platform holds the
/// native handle; this record holds everything the core's logic reads.
#[derive(Clone, Copy, Debug, PartialEq, Eq, Structural)]
pub struct WindowRecord {
    /// Current size in physical pixels.
    pub width: u32,
    pub height: u32,
    /// Scale factor in thousandths (`1000` = 1.0); always at least 1.
    pub scale_milli: u32,
    /// Whether the window has been made visible. Windows are always created
    /// invisible and are shown only after their dependent setup completes.
    pub visible: bool,
    /// Whether the platform reports the window as holding input focus.
    pub focused: bool,
}

/// The window attributes provided to the created window by default.
pub struct WindowOptions {
    /// Title displayed on the window, usually in the title bar.
    pub title: String,
    /// When `true`, the window is displayed in full screen.
    pub full_screen: bool,
    /// Whether the window is resizable.
    pub resizable: bool,
    /// The requested size of the window in physical pixels.
    pub size: Size,
}

impl Default for WindowOptions {
    fn default() -> (o: WindowOptions)
        ensures
            o.title@ == "oxdraw window"@,
            !o.full_screen,
            o.resizable,
            o.size == (Size { width: 400, height: 400 }),
    {
        WindowOptions {
            title: "oxdraw window".to_owned(),
            full_screen: false,
            resizable: true,
            size: Size { width: 400, height: 400 },
        }
    }
}

/// What the platform reported when probed before window creation.
#[derive(Clone, Copy, Debug, PartialEq, Eq, Structural)]
pub struct PlatformProbe {
    /// Whether a display monitor is available.
    pub has_monitor: bool,
    /// Whether the monitor reports a supported video mode (needed for
    /// exclusive full screen).
    pub has_video_mode: bool,
}

/// What the platform reported of a native window it built.
#[derive(Clone, Copy, Debug, PartialEq, Eq, Structural)]
pub struct BuiltWindow {
    /// The opaque identifier, unique and stable for the window's lifetime.
    pub id: u64,
    /// Initial size in physical pixels.
    pub width: u32,
    pub height: u32,
    /// Scale factor in thousandths; at least 1.
    pub scale_milli: u32,
}

/// The record a freshly built window starts with: invisible, unfocused.
pub open spec fn record_of(b: BuiltWindow) -> WindowRecord {
    WindowRecord {
        width: b.width,
        height: b.height,
        scale_milli: b.scale_milli,
        visible: false,
        focused: false,
    }
}

/// The options the main application window is created with: half the size of
/// the monitor used for display, windowed, resizable.
pub fn main_window_options(monitor_width: u32, monitor_height: u32) -> (o: WindowOptions)
    ensures
        o.title@ == "Oxdraw"@,
        !o.full_screen,
        o.resizable,
        o.size == (Size { width: monitor_width / 2, height: monitor_height / 2 }),
{
    WindowOptions {
        title: "Oxdraw".to_owned(),
        full_screen: false,
        resizable: true,
        size: Size { width: monitor_width / 2, height: monitor_height / 2 },
    }
}

/// The mathematical value of a [`WindowManager`]: the map from window
/// identifier to record, the main window, and the focused window.
pub struct WmV {
    pub map: Map<u64, WindowRecord>,
    pub main: Option<u64>,
    pub focus: Option<u64>,
}

impl WmV {
    pub open spec fn has(self, id: u64) -> bool {
        self.map.contains_key(id)
    }

    pub open spec fn rec(self, id: u64) -> WindowRecord {
        self.map[id]
    }

    pub open spec fn is_empty(self) -> bool {
        self.map == Map::<u64, WindowRecord>::empty()
    }

    /// Every record holds a positive scale factor.
    pub open spec fn records_wf(self) -> bool {
        forall|id: u64| #[trigger] self.map.contains_key(id) ==> self.map[id].scale_milli >= 1
    }

    /// What `main_window` returns: fails with a "no main window" condition
    /// if the registry was never initialized with one, or with a lookup
    /// failure if the main window is gone.
    pub open spec fn main_window_r(self) -> Result<WindowRecord, WindowsError> {
        match self.main {
            None => Err(WindowsError::MainWindowId),
            Some(id) => if self.has(id) {
                Ok(self.rec(id))
            } else {
                Err(WindowsError::WindowStore(id))
            },
        }
    }

    /// What `current_window` resolves to: the focused window if set and
    /// still present, else the main window.
    pub open spec fn current_entry_r(self) -> Result<(u64, WindowRecord), WindowsError> {
        match self.focus {
            Some(id) if self.has(id) => Ok((id, self.rec(id))),
            _ => match self.main {
                None => Err(WindowsError::MainWindowId),
                Some(id) => if self.has(id) {
                    Ok((id, self.rec(id)))
                } else {
                    Err(WindowsError::WindowStore(id))
                },
            },
        }
    }

    /// Removal: the window leaves the map; focus is cleared if it pointed at
    /// the removed window; the main designation is untouched.
    pub open spec fn remove_spec(self, id: u64) -> WmV {
        WmV {
            map: self.map.remove(id),
            main: self.main,
            focus: if self.focus == Some(id) {
                None
            } else {
                self.focus
            },
        }
    }

    /// Insertion or update of one record; main and focus are untouched.
    pub open spec fn insert_spec(self, id: u64, rec: WindowRecord) -> WmV {
        WmV { map: self.map.insert(id, rec), main: self.main, focus: self.focus }
    }

    /// Unconditionally focus the window with this identifier.
    pub open spec fn focus_spec(self, id: u64) -> WmV {
        WmV { map: self.map, main: self.main, focus: Some(id) }
    }

    /// What window creation does. Fails if no display monitor is available,
    /// or if full screen is requested and the platform reports no supported
    /// video mode, or if the platform failed to build the window; otherwise
    /// the new window is registered invisible.
    pub open spec fn create_window_spec(
        self,
        full_screen: bool,
        probe: PlatformProbe,
        built: Option<BuiltWindow>,
    ) -> (WmV, Result<u64, WindowsError>) {
        if !probe.has_monitor {
            (self, Err(WindowsError::NoMonitor))
        } else if full_screen && !probe.has_video_mode {
            (self, Err(WindowsError::NoVideoMode))
        } else {
            match built {
                None => (self, Err(WindowsError::WindowBuild)),
                Some(b) => (self.insert_spec(b.id, record_of(b)), Ok(b.id)),
            }
        }
    }

    /// What registry initialization does: creates the main window (never
    /// full screen) and designates it as main.
    pub open spec fn with_main_window_spec(
        self,
        probe: PlatformProbe,
        built: Option<BuiltWindow>,
    ) -> (WmV, Result<u64, WindowsError>) {
        let (w, r) = self.create_window_spec(false, probe, built);
        match r {
            Ok(id) => (WmV { map: w.map, main: Some(id), focus: w.focus }, Ok(id)),
            Err(e) => (self, Err(e)),
        }
    }
}

/// One requested window creation: the full-screen option together with what
/// the platform reported for it.
pub struct CreationV {
    pub full_screen: bool,
    pub probe: PlatformProbe,
    pub built: Option<BuiltWindow>,
}

/// The registry state after a whole sequence of `create_window` calls.
pub open spec fn create_all_spec(w: WmV, creations: Seq<CreationV>) -> WmV
    decreases creations.len(),
{
    if creations.len() == 0 {
        w
    } else {
        let c = creations[0];
        let (w1, r) = w.create_window_spec(c.full_screen, c.probe, c.built);
        create_all_spec(w1, creations.drop_first())
    }
}

/// For all sequences of `create_window` calls, `main_window` still resolves
/// exactly as before them — the main window stays the window the registry
/// was initialized with, unaffected by subsequent creations. (Platform
/// window identifiers are unique, so no creation reuses the main window's
/// identifier.)
pub proof fn lemma_main_window_stable_under_creates(w: WmV, creations: Seq<CreationV>)
    requires
        forall|i: int|
            0 <= i < creations.len() ==> ((#[trigger] creations[i]).built matches Some(b) ==> Some(
                b.id,
            ) != w.main),
    ensures
        create_all_spec(w, creations).main == w.main,
        create_all_spec(w, creations).main_window_r() == w.main_window_r(),
    decreases creations.len(),
{
    if creations.len() > 0 {
        let c = creations[0];
        let (w1, r) = w.create_window_spec(c.full_screen, c.probe, c.built);
        assert(w1.main == w.main);
        assert(w1.main_window_r() == w.main_window_r());
        assert forall|i: int|
            0 <= i < creations.drop_first().len() implies ((
        #[trigger] creations.drop_first()[i]).built matches Some(b) ==> Some(b.id) != w1.main) by {
            assert(creations.drop_first()[i] == creations[i + 1]);
        }
        lemma_main_window_stable_under_creates(w1, creations.drop_first());
    }
}

/// After initialization succeeds, `main_window` returns exactly the window
/// the platform just built.
pub proof fn lemma_with_main_window_main(w: WmV, probe: PlatformProbe, built: Option<BuiltWindow>)
    ensures
        ({
            let (w2, r) = w.with_main_window_spec(probe, built);
            r matches Ok(id) ==> (built matches Some(b) && id == b.id && w2.main_window_r()
                == Ok::<WindowRecord, WindowsError>(record_of(b)))
        }),
{
}

/// `current_window` resolution: the focused window when it is set and still
/// present; otherwise — focus never set, or set and then removed — the main
/// window, with the main window's own failure conditions.
pub proof fn lemma_current_window_fallback(w: WmV)
    ensures
        (w.focus matches Some(f) && w.has(f)) ==> w.current_entry_r() == Ok::<
            (u64, WindowRecord),
            WindowsError,
        >((w.focus->0, w.rec(w.focus->0))),
        w.focus is None ==> current_matches_main(w),
        (w.focus matches Some(f) && !w.has(f)) ==> current_matches_main(w),
{
}

/// The current window resolves to whatever the main window resolves to.
pub open spec fn current_matches_main(w: WmV) -> bool {
    match w.main_window_r() {
        Ok(rec) => w.current_entry_r() == Ok::<(u64, WindowRecord), WindowsError>(
            (w.main->0, rec),
        ),
        Err(e) => w.current_entry_r() == Err::<(u64, WindowRecord), WindowsError>(e),
    }
}

/// Removal followed by lookup always yields absence; removing an absent
/// identifier leaves the window map untouched (the operation has no failure
/// outcome at all), and is a complete no-op unless it clears a dangling
/// focus.
pub proof fn lemma_remove_then_window_absent(w: WmV, id: u64)
    ensures
        !w.remove_spec(id).has(id),
        !w.has(id) ==> w.remove_spec(id).map == w.map,
        !w.has(id) && w.focus != Some(id) ==> w.remove_spec(id) == w,
{
    if !w.has(id) {
        assert(w.remove_spec(id).map =~= w.map);
    }
}

/// The map described by a sequence of keyed entries.
pub open spec fn pairs_map(s: Seq<(u64, WindowRecord)>) -> Map<u64, WindowRecord>
    decreases s.len(),
{
    if s.len() == 0 {
        Map::empty()
    } else {
        pairs_map(s.drop_last()).insert(s.last().0, s.last().1)
    }
}

/// No two entries share a key.
pub open spec fn unique_keys(s: Seq<(u64, WindowRecord)>) -> bool {
    forall|i: int, j: int| 0 <= i < j < s.len() ==> (#[trigger] s[i]).0 != (#[trigger] s[j]).0
}

proof fn lemma_pairs_map_contains(s: Seq<(u64, WindowRecord)>, id: u64)
    ensures
        pairs_map(s).contains_key(id) <==> exists|j: int| 0 <= j < s.len() && (#[trigger] s[j]).0 == id,
    decreases s.len(),
{
    if s.len() > 0 {
        lemma_pairs_map_contains(s.drop_last(), id);
        if s.last().0 == id {
            assert(s[s.len() - 1].0 == id);
        } else if pairs_map(s).contains_key(id) {
            let j = choose|j: int| 0 <= j < s.drop_last().len() && (#[trigger] s.drop_last()[j]).0 == id;
            assert(s[j].0 == id);
        } else if exists|j: int| 0 <= j < s.len() && (#[trigger] s[j]).0 == id {
            let j = choose|j: int| 0 <= j < s.len() && (#[trigger] s[j]).0 == id;
            assert(s.drop_last()[j].0 == id);
        }
    }
}

proof fn lemma_unique_drop_last(s: Seq<(u64, WindowRecord)>)
    requires
        unique_keys(s),
        s.len() > 0,
    ensures
        unique_keys(s.drop_last()),
{
    assert forall|i: int, j: int|
        0 <= i < j < s.drop_last().len() implies (#[trigger] s.drop_last()[i]).0 != (
    #[trigger] s.drop_last()[j]).0 by {
        assert(s[i].0 != s[j].0);
    }
}

proof fn lemma_pairs_map_at(s: Seq<(u64, WindowRecord)>, i: int)
    requires
        unique_keys(s),
        0 <= i < s.len(),
    ensures
        pairs_map(s).contains_key(s[i].0),
        pairs_map(s)[s[i].0] == s[i].1,
    decreases s.len(),
{
    if i < s.len() - 1 {
        lemma_unique_drop_last(s);
        lemma_pairs_map_at(s.drop_last(), i);
        assert(s.drop_last()[i] == s[i]);
        assert(s.last().0 != s[i].0);
    }
}

proof fn lemma_pairs_map_push(s: Seq<(u64, WindowRecord)>, p: (u64, WindowRecord))
    ensures
        pairs_map(s.push(p)) == pairs_map(s).insert(p.0, p.1),
{
    assert(s.push(p).drop_last() =~= s);
    assert(s.push(p).last() == p);
}

proof fn lemma_pairs_map_remove(s: Seq<(u64, WindowRecord)>, i: int)
    requires
        unique_keys(s),
        0 <= i < s.len(),
    ensures
        pairs_map(s.remove(i)) == pairs_map(s).remove(s[i].0),
    decreases s.len(),
{
    let k = s[i].0;
    if i == s.len() - 1 {
        assert(s.remove(i) =~= s.drop_last());
        lemma_unique_drop_last(s);
        lemma_pairs_map_contains(s.drop_last(), k);
        assert forall|j: int| 0 <= j < s.drop_last().len() implies (#[trigger] s.drop_last()[j]).0
            != k by {
            assert(s[j].0 != s[i].0);
        }
        assert(!pairs_map(s.drop_last()).contains_key(k));
        assert(pairs_map(s.remove(i)) =~= pairs_map(s).remove(k));
    } else {
        let dl = s.drop_last();
        let t = s.remove(i);
        lemma_unique_drop_last(s);
        lemma_pairs_map_remove(dl, i);
        assert(t.drop_last() =~= dl.remove(i));
        assert(t.last() == s.last());
        assert(s.last().0 != k);
        assert(pairs_map(t) == pairs_map(dl.remove(i)).insert(s.last().0, s.last().1));
        assert(pairs_map(t) =~= pairs_map(s).remove(k));
    }
}

/// `WindowManager` manages the set of live windows for a desktop
/// application. It is the sole owner of their records; the platform layer
/// owns the native handles and reports their identifiers.
pub struct WindowManager {
    windows: Vec<(u64, WindowRecord)>,
    main_window: Option<u64>,
    focus_window: Option<u64>,
}

impl View for WindowManager {
    type V = WmV;

    closed spec fn view(&self) -> WmV {
        WmV { map: pairs_map(self.windows@), main: self.main_window, focus: self.focus_window }
    }
}

impl Default for WindowManager {
    /// An empty registry: no windows, no main window, no focus.
    fn default() -> (wm: WindowManager)
        ensures
            wm.wf(),
            wm@ == (WmV { map: Map::<u64, WindowRecord>::empty(), main: None::<u64>, focus: None::<u64> }),
    {
        WindowManager { windows: Vec::new(), main_window: None, focus_window: None }
    }
}

impl WindowManager {
    /// Representation validity: entry keys are unique and every record holds
    /// a positive scale factor.
    pub closed spec fn wf(self) -> bool {
        &&& unique_keys(self.windows@)
        &&& forall|j: int|
            0 <= j < self.windows@.len() ==> (#[trigger] self.windows@[j]).1.scale_milli >= 1
    }

    /// The index of the entry with this key, if one exists.
    fn get_index(&self, window_id: u64) -> (r: Option<usize>)
        ensures
            match r {
                Some(i) => i < self.windows@.len() && self.windows@[i as int].0 == window_id,
                None => forall|j: int|
                    0 <= j < self.windows@.len() ==> (#[trigger] self.windows@[j]).0 != window_id,
            },
    {
        let mut i: usize = 0;
        while i < self.windows.len()
            invariant
                i <= self.windows@.len(),
                forall|j: int| 0 <= j < i ==> (#[trigger] self.windows@[j]).0 != window_id,
            decreases self.windows@.len() - i,
        {
            if self.windows[i].0 == window_id {
                return Some(i);
            }
            i = i + 1;
        }
        None
    }

    /// Removes the entry with this key from the backing vector, touching no
    /// focus bookkeeping.
    fn remove_raw(&mut self, window_id: u64)
        requires
            old(self).wf(),
        ensures
            final(self).wf(),
            final(self)@.map == old(self)@.map.remove(window_id),
            final(self)@.main == old(self)@.main,
            final(self)@.focus == old(self)@.focus,
            forall|j: int|
                0 <= j < final(self).windows@.len() ==> (#[trigger] final(self).windows@[j]).0
                    != window_id,
    {
        match self.get_index(window_id) {
            Some(i) => {
                proof {
                    lemma_pairs_map_remove(self.windows@, i as int);
                    assert forall|a: int, b: int|
                        0 <= a < b < self.windows@.remove(i as int).len() implies (
                    #[trigger] self.windows@.remove(i as int)[a]).0 != (
                    #[trigger] self.windows@.remove(i as int)[b]).0 by {
                        let s = self.windows@;
                        if b < i {
                            assert(s[a].0 != s[b].0);
                        } else if a < i {
                            assert(s[a].0 != s[b + 1].0);
                        } else {
                            assert(s[a + 1].0 != s[b + 1].0);
                        }
                    }
                    assert forall|j: int|
                        0 <= j < self.windows@.remove(i as int).len() implies (
                    #[trigger] self.windows@.remove(i as int)[j]).0 != window_id by {
                        let s = self.windows@;
                        if j < i {
                            assert(s[j].0 != s[i as int].0);
                        } else {
                            assert(s[j + 1].0 != s[i as int].0);
                        }
                    }
                }
                self.windows.remove(i);
            },
            None => {
                proof {
                    lemma_pairs_map_contains(self.windows@, window_id);
                    assert(self@.map.remove(window_id) =~= self@.map);
                }
            },
        }
    }

    /// Inserts or replaces the record under this key, touching no focus
    /// bookkeeping.
    fn insert_entry(&mut self, window_id: u64, rec: WindowRecord)
        requires
            old(self).wf(),
            rec.scale_milli >= 1,
        ensures
            final(self).wf(),
            final(self)@ == old(self)@.insert_spec(window_id, rec),
    {
        self.remove_raw(window_id);
        proof {
            lemma_pairs_map_push(self.windows@, (window_id, rec));
            assert(self@.map.insert(window_id, rec) =~= old(self)@.map.insert(window_id, rec));
            assert forall|a: int, b: int|
                0 <= a < b < self.windows@.push((window_id, rec)).len() implies (
            #[trigger] self.windows@.push((window_id, rec))[a]).0 != (
            #[trigger] self.windows@.push((window_id, rec))[b]).0 by {
                if b < self.windows@.len() {
                    assert(self.windows@[a].0 != self.windows@[b].0);
                } else {
                    assert(self.windows@[a].0 != window_id);
                }
            }
        }
        self.windows.push((window_id, rec));
    }
}

/// Constructor functions.
impl WindowManager {
    /// Initializes the registry with the application main window, which acts
    /// as the fallback target for any operation that needs a window but has
    /// no focused one. `probe` and `built` are what the platform reported;
    /// creation fails if no monitor is available or the platform failed to
    /// build the window.
    pub fn with_main_window(self, probe: PlatformProbe, built: Option<BuiltWindow>) -> (r: Result<
        WindowManager,
        WindowsError,
    >)
        requires
            self.wf(),
            built matches Some(b) ==> b.scale_milli >= 1,
        ensures
            ({
                let (wmv, res) = self@.with_main_window_spec(probe, built);
                match r {
                    Ok(wm) => res is Ok && wm@ == wmv && wm.wf(),
                    Err(e) => res == Err::<u64, WindowsError>(e),
                }
            }),
    {
        let mut wm = self;
        if !probe.has_monitor {
            return Err(WindowsError::NoMonitor);
        }
        match built {
            None => Err(WindowsError::WindowBuild),
            Some(b) => {
                wm.insert_entry(b.id, WindowRecord {
                    width: b.width,
                    height: b.height,
                    scale_milli: b.scale_milli,
                    visible: false,
                    focused: false,
                });
                wm.main_window = Some(b.id);
                Ok(wm)
            },
        }
    }
}

/// Reference functions.
impl WindowManager {
    /// Non-owning lookup of the window with this identifier; absence is not
    /// an error at this layer, callers decide.
    pub fn window(&self, window_id: &u64) -> (r: Option<WindowRecord>)
        requires
            self.wf(),
        ensures
            match r {
                Some(rec) => self@.has(*window_id) && rec == self@.rec(*window_id)
                    && rec.scale_milli >= 1,
                None => !self@.has(*window_id),
            },
    {
        match self.get_index(*window_id) {
            Some(i) => {
                proof {
                    lemma_pairs_map_at(self.windows@, i as int);
                }
                Some(self.windows[i].1)
            },
            None => {
                proof {
                    lemma_pairs_map_contains(self.windows@, *window_id);
                }
                None
            },
        }
    }

    /// The main window's record; fails with a "no main window" condition if
    /// the registry was never initialized with one.
    pub fn main_window(&self) -> (r: Result<WindowRecord, WindowsError>)
        requires
            self.wf(),
        ensures
            r == self@.main_window_r(),
            r matches Ok(rec) ==> rec.scale_milli >= 1,
    {
        let main_window_id = match self.main_window {
            None => {
                return Err(WindowsError::MainWindowId);
            },
            Some(id) => id,
        };
        match self.window(&main_window_id) {
            None => Err(WindowsError::WindowStore(main_window_id)),
            Some(window) => Ok(window),
        }
    }

    /// The identifier of the main window, if the registry was initialized
    /// with one.
    pub fn main_window_id(&self) -> (r: Option<u64>)
        ensures
            r == self@.main,
    {
        self.main_window
    }

    /// Whether this identifier is the currently focused window.
    pub fn is_current_window(&self, window_id: &u64) -> (r: bool)
        ensures
            r == (self@.focus == Some(*window_id)),
    {
        match self.focus_window {
            Some(focus_window_id) => focus_window_id == *window_id,
            None => false,
        }
    }

    /// True when no windows remain; the scheduler uses this to decide full
    /// application shutdown.
    pub fn is_empty(&self) -> (r: bool)
        ensures
            r == self@.is_empty(),
    {
        let r = self.windows.len() == 0;
        proof {
            if self.windows@.len() == 0 {
            } else {
                let last = self.windows@.last();
                assert(self@.map.contains_key(last.0));
                assert(!Map::<u64, WindowRecord>::empty().contains_key(last.0));
            }
        }
        r
    }

    /// The focused window's identifier and record if the focused window is
    /// set and still present, else the main window's.
    pub fn current_window_entry(&self) -> (r: Result<(u64, WindowRecord), WindowsError>)
        requires
            self.wf(),
        ensures
            r == self@.current_entry_r(),
            r matches Ok(e) ==> e.1.scale_milli >= 1,
    {
        if let Some(window_id) = self.focus_window {
            if let Some(window) = self.window(&window_id) {
                return Ok((window_id, window));
            }
        }
        let main_window_id = match self.main_window {
            None => {
                return Err(WindowsError::MainWindowId);
            },
            Some(id) => id,
        };
        match self.window(&main_window_id) {
            None => Err(WindowsError::WindowStore(main_window_id)),
            Some(window) => Ok((main_window_id, window)),
        }
    }

    /// The record `current_window_entry` resolves to: the focused window if
    /// set and still present, else the main window.
    pub fn current_window(&self) -> (r: Result<WindowRecord, WindowsError>)
        requires
            self.wf(),
        ensures
            r == match self@.current_entry_r() {
                Ok(e) => Ok::<WindowRecord, WindowsError>(e.1),
                Err(e) => Err(e),
            },
            r matches Ok(rec) ==> rec.scale_milli >= 1,
    {
        match self.current_window_entry() {
            Ok(e) => Ok(e.1),
            Err(e) => Err(e),
        }
    }

    /// Checks that the registry holds a main window to start the
    /// application with.
    pub fn run(&self) -> (r: Result<(), WindowsError>)
        requires
            self.wf(),
        ensures
            match r {
                Ok(u) => self@.main_window_r() is Ok,
                Err(e) => self@.main_window_r() == Err::<WindowRecord, WindowsError>(e),
            },
    {
        match self.main_window() {
            Ok(_) => Ok(()),
            Err(e) => Err(e),
        }
    }
}

/// Mutable functions.
impl WindowManager {
    /// Unconditionally sets the focused window; the caller is responsible
    /// for verifying the identifier exists.
    pub fn focus_window(&mut self, window_id: u64)
        ensures
            final(self)@ == old(self)@.focus_spec(window_id),
            old(self).wf() ==> final(self).wf(),
    {
        self.focus_window = Some(window_id);
    }

    /// Removes the window with this identifier. Removing an absent
    /// identifier is a no-op, not a failure. Focus is cleared if it pointed
    /// at the removed window and is not reassigned.
    pub fn remove(&mut self, window_id: &u64)
        requires
            old(self).wf(),
        ensures
            final(self).wf(),
            final(self)@ == old(self)@.remove_spec(*window_id),
    {
        self.remove_raw(*window_id);
        if let Some(f) = self.focus_window {
            if f == *window_id {
                self.focus_window = None;
            }
        }
    }

    /// Replaces the record of a present window, leaving the main and focus
    /// designations untouched. The input context uses this to track platform
    /// size, scale, visibility and focus changes.
    pub fn update_record(&mut self, window_id: u64, rec: WindowRecord)
        requires
            old(self).wf(),
            rec.scale_milli >= 1,
        ensures
            final(self).wf(),
            final(self)@ == old(self)@.insert_spec(window_id, rec),
    {
        self.insert_entry(window_id, rec);
    }

    /// Creates a new window from what the platform reported and registers
    /// it, always invisible; the caller shows it after dependent setup
    /// (render surface, menu) completes.
    pub fn create_window(
        &mut self,
        options: &WindowOptions,
        probe: PlatformProbe,
        built: Option<BuiltWindow>,
    ) -> (r: Result<u64, WindowsError>)
        requires
            old(self).wf(),
            built matches Some(b) ==> b.scale_milli >= 1,
        ensures
            final(self).wf(),
            ({
                let (wmv, res) = old(self)@.create_window_spec(options.full_screen, probe, built);
                final(self)@ == wmv && r == res
            }),
    {
        if !probe.has_monitor {
            return Err(WindowsError::NoMonitor);
        }
        if options.full_screen && !probe.has_video_mode {
            return Err(WindowsError::NoVideoMode);
        }
        match built {
            None => Err(WindowsError::WindowBuild),
            Some(b) => {
                self.insert_entry(b.id, WindowRecord {
                    width: b.width,
                    height: b.height,
                    scale_milli: b.scale_milli,
                    visible: false,
                    focused: false,
                });
                Ok(b.id)
            },
        }
    }
}

} // verus!
