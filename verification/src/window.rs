//! The live windows: what the platform is asked for when one is created, what
//! is kept of each while it lives, and the two steps in which one is closed.

use crate::keys::key_list;
use std::collections::HashMap;
use vstd::prelude::*;

verus! {

/// The platform's name for a window, as a number.
#[derive(Clone, Copy, Debug, PartialEq, Eq, Hash, Structural)]
pub struct WindowId(pub u64);

/// A real number in binary64 interchange format, held by its 64 bits. It is
/// stored, compared with zero and handed back; no arithmetic is done on it.
#[derive(Clone, Copy, Debug, PartialEq, Eq, Hash, Structural)]
pub struct Scalar {
    pub bits: u64,
}

/// The bits of 800.
pub const DEFAULT_WIDTH_BITS: u64 = 0x4089_0000_0000_0000;

/// The bits of 600.
pub const DEFAULT_HEIGHT_BITS: u64 = 0x4082_C000_0000_0000;

/// The sign bit of the format: the only bit in which the two zeros differ.
pub const SIGN_BIT: u64 = 0x8000_0000_0000_0000;

impl Scalar {
    /// Whether the number is zero, of either sign: every bit but the sign bit
    /// is clear.
    pub open spec fn spec_is_zero(self) -> bool {
        self.bits == 0 || self.bits == SIGN_BIT
    }

    /// Whether the number is zero, of either sign.
    #[verifier::when_used_as_spec(spec_is_zero)]
    pub fn is_zero(self) -> (zero: bool)
        ensures
            zero == self.spec_is_zero(),
    {
        self.bits == 0 || self.bits == SIGN_BIT
    }
}

/// A width and a height, in logical units.
#[derive(Clone, Copy, Debug, PartialEq, Eq, Structural)]
pub struct Size {
    pub width: Scalar,
    pub height: Scalar,
}

/// A place on the desktop, in logical units.
#[derive(Clone, Copy, Debug, PartialEq, Eq, Structural)]
pub struct Point {
    pub x: Scalar,
    pub y: Scalar,
}

/// The modifier keys that are held down, one bit each, as the platform
/// reports them.
#[derive(Clone, Copy, Debug, PartialEq, Eq, Structural)]
pub struct Modifiers {
    pub bits: u32,
}

/// What a caller may ask of a new window. A field left out is left to the
/// platform.
#[derive(Clone, Copy, Debug, PartialEq, Eq, Structural)]
pub struct WindowConfig {
    pub size: Option<Size>,
    pub position: Option<Point>,
    pub show_titlebar: Option<bool>,
}

/// The two families of platform that this crate tells apart.
#[derive(Clone, Copy, Debug, PartialEq, Eq, Structural)]
pub enum Platform {
    /// The application stays in the dock and the menu bar when its last window
    /// has closed; a title bar is hidden by drawing the content over it.
    Resident,
    /// The application ends with its last window; a title bar is hidden by
    /// switching the window's decorations off.
    Windowed,
}

/// What the platform's window builder is told.
#[derive(Clone, Copy, Debug, PartialEq, Eq, Structural)]
pub struct WindowAttributes {
    /// The inner size to ask for, where the configuration names one.
    pub inner_size: Option<Size>,
    /// The position to ask for, where the configuration names one.
    pub position: Option<Point>,
    /// Whether the window keeps its frame and title bar.
    pub decorations: bool,
    /// Whether the title's text is hidden.
    pub title_hidden: bool,
    /// Whether the title bar is drawn transparent.
    pub titlebar_transparent: bool,
    /// Whether the content reaches under the title bar.
    pub fullsize_content_view: bool,
}

/// The size that is asked of the platform when the configuration asks for
/// `size`: 800 by 600 where the width or the height is zero, `size` itself
/// otherwise.
pub open spec fn effective_size_of(size: Size) -> Size {
    if size.width.is_zero() || size.height.is_zero() {
        Size {
            width: Scalar { bits: DEFAULT_WIDTH_BITS },
            height: Scalar { bits: DEFAULT_HEIGHT_BITS },
        }
    } else {
        size
    }
}

/// Whether the configuration asks for the title bar to go.
pub open spec fn hides_titlebar(config: Option<WindowConfig>) -> bool {
    config matches Some(c) && c.show_titlebar == Some(false)
}

/// What the platform's window builder is told for a configuration.
pub open spec fn attributes_for(config: Option<WindowConfig>, platform: Platform) -> WindowAttributes {
    WindowAttributes {
        inner_size: match config {
            Some(c) => match c.size {
                Some(size) => Some(effective_size_of(size)),
                None => None,
            },
            None => None,
        },
        position: match config {
            Some(c) => c.position,
            None => None,
        },
        decorations: !(hides_titlebar(config) && platform == Platform::Windowed),
        title_hidden: hides_titlebar(config) && platform == Platform::Resident,
        titlebar_transparent: hides_titlebar(config) && platform == Platform::Resident,
        fullsize_content_view: hides_titlebar(config) && platform == Platform::Resident,
    }
}

/// The size that is asked of the platform for a configured size.
pub fn effective_size(size: Size) -> (effective: Size)
    ensures
        effective == effective_size_of(size),
{
    if size.width.is_zero() || size.height.is_zero() {
        Size {
            width: Scalar { bits: DEFAULT_WIDTH_BITS },
            height: Scalar { bits: DEFAULT_HEIGHT_BITS },
        }
    } else {
        size
    }
}

/// What the platform's window builder is told for a configuration.
pub fn window_attributes(config: Option<WindowConfig>, platform: Platform) -> (attributes:
    WindowAttributes)
    ensures
        attributes == attributes_for(config, platform),
{
    let mut attributes = WindowAttributes {
        inner_size: None,
        position: None,
        decorations: true,
        title_hidden: false,
        titlebar_transparent: false,
        fullsize_content_view: false,
    };
    if let Some(config) = config {
        if let Some(size) = config.size {
            attributes.inner_size = Some(effective_size(size));
        }
        attributes.position = config.position;
        if let Some(show_titlebar) = config.show_titlebar {
            if !show_titlebar {
                match platform {
                    Platform::Resident => {
                        attributes.title_hidden = true;
                        attributes.titlebar_transparent = true;
                        attributes.fullsize_content_view = true;
                    },
                    Platform::Windowed => {
                        attributes.decorations = false;
                    },
                }
            }
        }
    }
    attributes
}

/// What is kept of a live window.
#[derive(Debug, PartialEq, Eq)]
pub struct WindowEntry<P, W> {
    /// The platform's window. It is given up when the window starts to close,
    /// while the entry itself is still to be found.
    pub window: Option<P>,
    /// The display scale that the platform last reported: physical units per
    /// logical unit.
    pub scale: Scalar,
    /// The modifier keys that the platform last reported as held.
    pub modifiers: Modifiers,
    /// The window's own state, to which events are forwarded.
    pub state: W,
}

impl<P, W> WindowEntry<P, W> {
    /// The entry of a window that the platform has just built: no modifier
    /// key is held yet.
    pub fn new(window: P, scale: Scalar, state: W) -> (entry: Self)
        ensures
            entry == (WindowEntry { window: Some(window), scale, modifiers: Modifiers { bits: 0 }, state }),
    {
        WindowEntry { window: Some(window), scale, modifiers: Modifiers { bits: 0 }, state }
    }

    /// This entry without its platform window.
    pub open spec fn released(self) -> Self {
        WindowEntry { window: None, scale: self.scale, modifiers: self.modifiers, state: self.state }
    }

    /// This entry with another scale.
    pub open spec fn with_scale(self, scale: Scalar) -> Self {
        WindowEntry { window: self.window, scale, modifiers: self.modifiers, state: self.state }
    }

    /// This entry with other modifier keys held.
    pub open spec fn with_modifiers(self, modifiers: Modifiers) -> Self {
        WindowEntry { window: self.window, scale: self.scale, modifiers, state: self.state }
    }
}

/// Whether `id` names a window that is live and has not begun to close: it
/// has an entry, and the entry still holds the platform window.
pub open spec fn is_open<P, W>(windows: Map<u64, WindowEntry<P, W>>, id: WindowId) -> bool {
    windows.contains_key(id.0) && windows[id.0].window is Some
}

/// The windows after the first step of closing `id`: its entry, if it has
/// one, has given up its platform window and is still there.
pub open spec fn detached<P, W>(windows: Map<u64, WindowEntry<P, W>>, id: WindowId) -> Map<
    u64,
    WindowEntry<P, W>,
> {
    if windows.contains_key(id.0) {
        windows.insert(id.0, windows[id.0].released())
    } else {
        windows
    }
}

/// The windows after `id` has been closed: in both steps, or in the second
/// alone.
pub open spec fn closed<P, W>(windows: Map<u64, WindowEntry<P, W>>, id: WindowId) -> Map<
    u64,
    WindowEntry<P, W>,
> {
    windows.remove(id.0)
}

/// The windows after the platform has reported `scale` for `id`.
pub open spec fn rescaled<P, W>(
    windows: Map<u64, WindowEntry<P, W>>,
    id: WindowId,
    scale: Scalar,
) -> Map<u64, WindowEntry<P, W>> {
    if windows.contains_key(id.0) {
        windows.insert(id.0, windows[id.0].with_scale(scale))
    } else {
        windows
    }
}

/// The windows after the platform has reported `modifiers` for `id`.
pub open spec fn remodified<P, W>(
    windows: Map<u64, WindowEntry<P, W>>,
    id: WindowId,
    modifiers: Modifiers,
) -> Map<u64, WindowEntry<P, W>> {
    if windows.contains_key(id.0) {
        windows.insert(id.0, windows[id.0].with_modifiers(modifiers))
    } else {
        windows
    }
}

/// The live windows, by identifier.
pub struct WindowRegistry<P, W> {
    entries: HashMap<u64, WindowEntry<P, W>>,
}

impl<P, W> View for WindowRegistry<P, W> {
    type V = Map<u64, WindowEntry<P, W>>;

    /// The entry of each live window, under its identifier's number.
    closed spec fn view(&self) -> Map<u64, WindowEntry<P, W>> {
        self.entries@
    }
}

impl<P, W> WindowRegistry<P, W> {
    /// There are finitely many live windows.
    pub proof fn lemma_finite(&self)
        ensures
            self@.dom().finite(),
    {
    }

    /// A registry without windows.
    pub fn new() -> (registry: Self)
        ensures
            registry@ == Map::<u64, WindowEntry<P, W>>::empty(),
    {
        WindowRegistry { entries: HashMap::new() }
    }

    /// How many windows are live.
    pub fn len(&self) -> (n: usize)
        ensures
            n == self@.len(),
    {
        self.entries.len()
    }

    /// Whether no window is live.
    pub fn is_empty(&self) -> (empty: bool)
        ensures
            empty <==> self@ == Map::<u64, WindowEntry<P, W>>::empty(),
            empty <==> self@.len() == 0,
    {
        let empty = self.entries.len() == 0;
        proof {
            if empty {
                assert(self@ =~= Map::<u64, WindowEntry<P, W>>::empty());
            }
        }
        empty
    }

    /// Whether `id` names a live window.
    pub fn contains(&self, id: WindowId) -> (live: bool)
        ensures
            live == self@.contains_key(id.0),
    {
        self.entries.contains_key(&id.0)
    }

    /// Whether `id` names a live window that has not begun to close.
    pub fn is_open(&self, id: WindowId) -> (open: bool)
        ensures
            open == is_open(self@, id),
    {
        match self.entries.get(&id.0) {
            Some(entry) => entry.window.is_some(),
            None => false,
        }
    }

    /// The entry of `id`, if it names a live window.
    pub fn lookup(&self, id: WindowId) -> (entry: Option<&WindowEntry<P, W>>)
        ensures
            match entry {
                Some(e) => self@.contains_key(id.0) && *e == self@[id.0],
                None => !self@.contains_key(id.0),
            },
    {
        self.entries.get(&id.0)
    }

    /// Takes in the outcome of asking the platform for a window. Where the
    /// platform built none, nothing changes. Where it built one, the entry is
    /// filed under the identifier that the platform gave it.
    pub fn create(&mut self, built: Option<(WindowId, WindowEntry<P, W>)>) -> (created: bool)
        ensures
            created == built is Some,
            final(self)@ == match built {
                Some((id, entry)) => old(self)@.insert(id.0, entry),
                None => old(self)@,
            },
    {
        match built {
            Some((id, entry)) => {
                self.entries.insert(id.0, entry);
                true
            },
            None => false,
        }
    }

    /// The first step of closing a window: its entry gives up the platform
    /// window and stays in the registry, so that whatever runs while the window
    /// is torn down still finds it. Says whether the window was open until
    /// now, that is, whether its teardown is owed.
    pub fn detach(&mut self, id: WindowId) -> (open: bool)
        ensures
            open == is_open(old(self)@, id),
            final(self)@ == detached(old(self)@, id),
    {
        match self.entries.remove(&id.0) {
            Some(entry) => {
                let WindowEntry { window, scale, modifiers, state } = entry;
                self.entries.insert(id.0, WindowEntry { window: None, scale, modifiers, state });
                proof {
                    assert(self@ =~= detached(old(self)@, id));
                }
                window.is_some()
            },
            None => {
                proof {
                    assert(self@ =~= old(self)@);
                }
                false
            },
        }
    }

    /// The second step of closing a window: its entry leaves the registry and
    /// is handed back. Nothing changes where `id` names no live window.
    pub fn remove(&mut self, id: WindowId) -> (entry: Option<WindowEntry<P, W>>)
        ensures
            final(self)@ == closed(old(self)@, id),
            entry == if old(self)@.contains_key(id.0) {
                Some(old(self)@[id.0])
            } else {
                None::<WindowEntry<P, W>>
            },
    {
        self.entries.remove(&id.0)
    }

    /// Records the display scale that the platform reports for `id`. Says
    /// whether `id` names a live window; nothing changes where it does not.
    pub fn set_scale(&mut self, id: WindowId, scale: Scalar) -> (live: bool)
        ensures
            live == old(self)@.contains_key(id.0),
            final(self)@ == rescaled(old(self)@, id, scale),
    {
        match self.entries.remove(&id.0) {
            Some(entry) => {
                let WindowEntry { window, scale: _, modifiers, state } = entry;
                self.entries.insert(id.0, WindowEntry { window, scale, modifiers, state });
                proof {
                    assert(self@ =~= rescaled(old(self)@, id, scale));
                }
                true
            },
            None => {
                proof {
                    assert(self@ =~= old(self)@);
                }
                false
            },
        }
    }

    /// Records the modifier keys that the platform reports as held for `id`.
    /// Says whether `id` names a live window; nothing changes where it does
    /// not.
    pub fn set_modifiers(&mut self, id: WindowId, modifiers: Modifiers) -> (live: bool)
        ensures
            live == old(self)@.contains_key(id.0),
            final(self)@ == remodified(old(self)@, id, modifiers),
    {
        match self.entries.remove(&id.0) {
            Some(entry) => {
                let WindowEntry { window, scale, modifiers: _, state } = entry;
                self.entries.insert(id.0, WindowEntry { window, scale, modifiers, state });
                proof {
                    assert(self@ =~= remodified(old(self)@, id, modifiers));
                }
                true
            },
            None => {
                proof {
                    assert(self@ =~= old(self)@);
                }
                false
            },
        }
    }

    /// Closes a window in both steps at once, for a caller with nothing to
    /// run in between: the entry gives up its platform window, leaves the
    /// registry and is handed back. Nothing changes where `id` names no live
    /// window.
    pub fn close(&mut self, id: WindowId) -> (entry: Option<WindowEntry<P, W>>)
        ensures
            final(self)@ == closed(detached(old(self)@, id), id),
            final(self)@ == old(self)@.remove(id.0),
            entry == if old(self)@.contains_key(id.0) {
                Some(old(self)@[id.0].released())
            } else {
                None::<WindowEntry<P, W>>
            },
    {
        proof {
            lemma_close_removes(old(self)@, id);
        }
        self.detach(id);
        self.remove(id)
    }

    /// Carries out one request: a window that the platform built is filed, a
    /// window that is closed goes through both steps at once.
    pub fn apply(&mut self, request: RegistryRequest<P, W>)
        ensures
            final(self)@ == applied(old(self)@, request),
    {
        match request {
            RegistryRequest::Create(id, entry) => {
                self.create(Some((id, entry)));
            },
            RegistryRequest::Close(id) => {
                self.close(id);
            },
        }
    }

    /// The identifiers of the live windows, each once, in no particular order.
    pub fn ids(&self) -> (ids: Vec<WindowId>)
        ensures
            live_ids(self@, ids@),
    {
        let keys = key_list(&self.entries);
        let mut ids: Vec<WindowId> = Vec::new();
        let mut i: usize = 0;
        while i < keys.len()
            invariant
                i <= keys.len(),
                ids@.len() == i,
                forall|j: int| 0 <= j < i ==> #[trigger] ids@[j] == WindowId(keys@[j]),
            decreases keys.len() - i,
        {
            ids.push(WindowId(keys[i]));
            i += 1;
        }
        proof {
            assert forall|k: u64| #[trigger] self@.contains_key(k) implies exists|j: int|
                0 <= j < ids@.len() && #[trigger] ids@[j] == WindowId(k) by {
                assert(keys@.to_set().contains(k));
                let j = choose|j: int| 0 <= j < keys@.len() && keys@[j] == k;
                assert(ids@[j] == WindowId(k));
            }
            assert forall|j: int| 0 <= j < ids@.len() implies self@.contains_key(
                #[trigger] ids@[j].0,
            ) by {
                assert(keys@.to_set().contains(keys@[j]));
            }
            assert forall|x: int, y: int| 0 <= x < y < ids@.len() implies #[trigger] ids@[x]
                != #[trigger] ids@[y] by {
                assert(keys@[x] != keys@[y]);
            }
        }
        ids
    }
}

/// `ids` names every live window of `windows`, each once, and nothing else.
pub open spec fn live_ids<P, W>(windows: Map<u64, WindowEntry<P, W>>, ids: Seq<WindowId>) -> bool {
    &&& forall|j: int| 0 <= j < ids.len() ==> windows.contains_key(#[trigger] ids[j].0)
    &&& forall|k: u64| #[trigger]
        windows.contains_key(k) ==> exists|j: int| 0 <= j < ids.len() && #[trigger] ids[j] == WindowId(k)
    &&& forall|x: int, y: int| 0 <= x < y < ids.len() ==> #[trigger] ids[x] != #[trigger] ids[y]
}

/// A request that changes which windows are live.
pub enum RegistryRequest<P, W> {
    /// The platform built a window: file its entry under its identifier.
    Create(WindowId, WindowEntry<P, W>),
    /// Close a window, in both steps.
    Close(WindowId),
}

/// The windows after one request.
pub open spec fn applied<P, W>(
    windows: Map<u64, WindowEntry<P, W>>,
    request: RegistryRequest<P, W>,
) -> Map<u64, WindowEntry<P, W>> {
    match request {
        RegistryRequest::Create(id, entry) => windows.insert(id.0, entry),
        RegistryRequest::Close(id) => closed(detached(windows, id), id),
    }
}

/// The windows after a run of requests, taken in order.
pub open spec fn replayed<P, W>(
    windows: Map<u64, WindowEntry<P, W>>,
    requests: Seq<RegistryRequest<P, W>>,
) -> Map<u64, WindowEntry<P, W>>
    decreases requests.len(),
{
    if requests.len() == 0 {
        windows
    } else {
        applied(replayed(windows, requests.drop_last()), requests.last())
    }
}

/// How many of the requests create a window.
pub open spec fn creates<P, W>(requests: Seq<RegistryRequest<P, W>>) -> nat
    decreases requests.len(),
{
    if requests.len() == 0 {
        0
    } else {
        creates(requests.drop_last()) + if requests.last() is Create {
            1nat
        } else {
            0nat
        }
    }
}

/// How many of the requests close a window that is live at their turn.
pub open spec fn closes_on_live<P, W>(
    windows: Map<u64, WindowEntry<P, W>>,
    requests: Seq<RegistryRequest<P, W>>,
) -> nat
    decreases requests.len(),
{
    if requests.len() == 0 {
        0
    } else {
        closes_on_live(windows, requests.drop_last()) + match requests.last() {
            RegistryRequest::Close(id) => if replayed(windows, requests.drop_last()).contains_key(
                id.0,
            ) {
                1nat
            } else {
                0nat
            },
            RegistryRequest::Create(_, _) => 0nat,
        }
    }
}

/// Every window that the requests create comes under an identifier that names
/// no live window at that turn, as the platform's identifiers do.
pub open spec fn creates_are_new<P, W>(
    windows: Map<u64, WindowEntry<P, W>>,
    requests: Seq<RegistryRequest<P, W>>,
) -> bool
    decreases requests.len(),
{
    requests.len() > 0 ==> {
        &&& creates_are_new(windows, requests.drop_last())
        &&& requests.last() matches RegistryRequest::Create(id, _) ==> !replayed(
            windows,
            requests.drop_last(),
        ).contains_key(id.0)
    }
}

/// Closing a window in both steps takes its entry out and touches no other.
pub proof fn lemma_close_removes<P, W>(windows: Map<u64, WindowEntry<P, W>>, id: WindowId)
    ensures
        closed(detached(windows, id), id) == windows.remove(id.0),
{
    assert(closed(detached(windows, id), id) =~= windows.remove(id.0));
}

/// Closing an identifier that names no live window changes nothing, in
/// either step.
pub proof fn lemma_close_unknown<P, W>(windows: Map<u64, WindowEntry<P, W>>, id: WindowId)
    requires
        !windows.contains_key(id.0),
    ensures
        detached(windows, id) == windows,
        closed(windows, id) == windows,
        applied(windows, RegistryRequest::Close(id)) == windows,
{
    assert(closed(windows, id) =~= windows);
}

/// Closing a window a second time changes nothing: after the first close the
/// identifier names no live window.
pub proof fn lemma_close_twice<P, W>(windows: Map<u64, WindowEntry<P, W>>, id: WindowId)
    ensures
        !closed(detached(windows, id), id).contains_key(id.0),
        detached(closed(detached(windows, id), id), id) == closed(detached(windows, id), id),
        closed(closed(detached(windows, id), id), id) == closed(detached(windows, id), id),
{
    let once = closed(detached(windows, id), id);
    lemma_close_unknown(once, id);
}

/// After any run of requests, the number of live windows is the number at the
/// start, plus the windows created, minus the closes that named a live
/// window.
pub proof fn lemma_live_count<P, W>(
    windows: Map<u64, WindowEntry<P, W>>,
    requests: Seq<RegistryRequest<P, W>>,
)
    requires
        windows.dom().finite(),
        creates_are_new(windows, requests),
    ensures
        replayed(windows, requests).dom().finite(),
        replayed(windows, requests).len() + closes_on_live(windows, requests) == windows.len()
            + creates(requests),
    decreases requests.len(),
{
    if requests.len() > 0 {
        let earlier = requests.drop_last();
        let before = replayed(windows, earlier);
        lemma_live_count(windows, earlier);
        match requests.last() {
            RegistryRequest::Create(id, entry) => {
                assert(before.insert(id.0, entry).dom() =~= before.dom().insert(id.0));
            },
            RegistryRequest::Close(id) => {
                lemma_close_removes(before, id);
                assert(before.remove(id.0).dom() =~= before.dom().remove(id.0));
            },
        }
    }
}

} // verus!
