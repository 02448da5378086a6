//! The texture registry: the update-phase owner of the mapping from opaque
//! texture handles to externally owned images, together with the pending
//! add/remove deltas that the render phase replays exactly once per frame.

use vstd::prelude::*;

verus! {

/// A reference to an externally owned image, as a caller presents it for
/// registration: either strong — owning, keeping the image alive — or weak.
/// Only a strong reference can be registered: the registry holds it for the
/// registration's whole lifetime so the image cannot disappear under the
/// GUI.
#[derive(Clone, Copy, PartialEq, Eq, Structural, Debug)]
pub enum ImageRef {
    /// An owning reference to the image with this identifier.
    Strong(u64),
    /// A non-owning reference to the image with this identifier.
    Weak(u64),
}

impl ImageRef {
    /// The identifier of the referenced image.
    pub open spec fn id_spec(self) -> u64 {
        match self {
            ImageRef::Strong(i) => i,
            ImageRef::Weak(i) => i,
        }
    }

    /// Executable form of [`ImageRef::id_spec`].
    pub fn id(self) -> (r: u64)
        ensures
            r == self.id_spec(),
    {
        match self {
            ImageRef::Strong(i) => i,
            ImageRef::Weak(i) => i,
        }
    }
}

/// One live registration: an opaque texture handle bound to the identifier
/// of an externally owned image resource. The caller guarantees that the
/// image stays resident for the whole interval of the registration.
#[derive(Clone, Copy, PartialEq, Eq, Structural, Debug)]
pub struct TextureEntry {
    /// The handle under which the GUI layer refers to the image.
    pub handle: usize,
    /// The identifier of the external image resource.
    pub image: u64,
}

/// The mathematical state of a [`TextureRegistry`].
#[verifier::ext_equal]
pub struct RegistryView {
    /// Live registrations, in registration order.
    pub entries: Seq<TextureEntry>,
    /// Handles whose GPU bindings must be (re-)created at the next drain.
    pub to_add: Seq<usize>,
    /// Handles whose GPU bindings must be freed at the next drain.
    pub to_remove: Seq<usize>,
    /// The next handle to allocate; starts at 1 so that 0 is never handed out.
    pub next_free: usize,
}

impl RegistryView {
    /// The handles of the live registrations, in registration order.
    pub open spec fn handles(self) -> Seq<usize> {
        self.entries.map_values(|e: TextureEntry| e.handle)
    }

    /// Whether `h` is currently registered.
    pub open spec fn has_handle(self, h: usize) -> bool {
        exists|i: int| 0 <= i < self.entries.len() && self.entries[i].handle == h
    }

    /// The position of the registration of `h`.
    pub open spec fn index_of(self, h: usize) -> int {
        choose|i: int| 0 <= i < self.entries.len() && self.entries[i].handle == h
    }

    /// The image registered under `h`.
    pub open spec fn image_of(self, h: usize) -> u64 {
        self.entries[self.index_of(h)].image
    }

    /// Well-formedness: handle 0 is reserved, every live handle lies below
    /// the allocation counter (so a handle is never reused while live), and
    /// no handle is registered twice.
    pub open spec fn wf(self) -> bool {
        &&& 1 <= self.next_free
        &&& forall|i: int|
            0 <= i < self.entries.len() ==> 0 < #[trigger] self.entries[i].handle
                < self.next_free
        &&& forall|i: int, j: int|
            0 <= i < j < self.entries.len() ==> #[trigger] self.entries[i].handle
                != #[trigger] self.entries[j].handle
    }

    /// The state after registering `image`: the freshly allocated handle is
    /// `self.next_free`; it joins the entries and the add queue, and the
    /// counter moves past it.
    pub open spec fn register_t(self, image: u64) -> RegistryView {
        RegistryView {
            entries: self.entries.push(TextureEntry { handle: self.next_free, image }),
            to_add: self.to_add.push(self.next_free),
            to_remove: self.to_remove,
            next_free: (self.next_free + 1) as usize,
        }
    }

    /// The state after unregistering `h`: if `h` is live its entry is
    /// dropped and `h` joins the remove queue; otherwise nothing changes.
    pub open spec fn unregister_t(self, h: usize) -> RegistryView {
        if self.has_handle(h) {
            RegistryView {
                entries: self.entries.remove(self.index_of(h)),
                to_add: self.to_add,
                to_remove: self.to_remove.push(h),
                next_free: self.next_free,
            }
        } else {
            self
        }
    }

    /// The state after a drain: both queues empty, everything else untouched.
    pub open spec fn drained_t(self) -> RegistryView {
        RegistryView {
            entries: self.entries,
            to_add: Seq::empty(),
            to_remove: Seq::empty(),
            next_free: self.next_free,
        }
    }

    /// The state after a renderer rebuild re-marks every live handle for
    /// re-add: all live handles are appended to the add queue, in
    /// registration order.
    pub open spec fn mark_all_t(self) -> RegistryView {
        RegistryView {
            entries: self.entries,
            to_add: self.to_add + self.handles(),
            to_remove: self.to_remove,
            next_free: self.next_free,
        }
    }

    /// The state after learning the font texture's id: the allocation
    /// counter moves past it, so no future handle can collide with it.
    pub open spec fn note_font_t(self, font: usize) -> RegistryView {
        RegistryView {
            entries: self.entries,
            to_add: self.to_add,
            to_remove: self.to_remove,
            next_free: if self.next_free <= font { (font + 1) as usize } else { self.next_free },
        }
    }
}

/// Maps opaque texture handles to externally owned images and accumulates a
/// replayable delta stream for the render phase.
///
/// Handles are allocated monotonically, skipping 0, and never reused while
/// the registry lives; the entry list doubles as the shadow list of
/// everything that must be re-added after a renderer rebuild.
pub struct TextureRegistry {
    entries: Vec<TextureEntry>,
    to_add: Vec<usize>,
    to_remove: Vec<usize>,
    next_free: usize,
}

impl View for TextureRegistry {
    type V = RegistryView;

    closed spec fn view(&self) -> RegistryView {
        RegistryView {
            entries: self.entries@,
            to_add: self.to_add@,
            to_remove: self.to_remove@,
            next_free: self.next_free,
        }
    }
}

impl TextureRegistry {
    /// An empty registry; the first handle handed out will be 1.
    pub fn new() -> (r: TextureRegistry)
        ensures
            r@ == (RegistryView {
                entries: Seq::empty(),
                to_add: Seq::empty(),
                to_remove: Seq::empty(),
                next_free: 1,
            }),
            r@.wf(),
    {
        TextureRegistry { entries: Vec::new(), to_add: Vec::new(), to_remove: Vec::new(), next_free: 1 }
    }

    /// The index of the entry registered under `handle`, if any.
    fn find(&self, handle: usize) -> (r: Option<usize>)
        ensures
            r matches Some(i) ==> 0 <= i < self@.entries.len() && self@.entries[i as int].handle
                == handle,
            r is None ==> !self@.has_handle(handle),
    {
        let n = self.entries.len();
        let mut i: usize = 0;
        while i < n
            invariant
                i <= n,
                n == self@.entries.len(),
                forall|j: int| 0 <= j < i ==> #[trigger] self@.entries[j].handle != handle,
            decreases n - i,
        {
            if self.entries[i].handle == handle {
                return Some(i);
            }
            i = i + 1;
        }
        None
    }

    /// Registers an already-resident external image and returns the freshly
    /// allocated handle, which is never 0. The handle is queued for addition
    /// on the render side at the next drain. Only a strong reference is
    /// accepted: a caller holding a weak one cannot guarantee the image's
    /// lifetime, so such an input is excluded rather than given a meaning.
    pub fn register(&mut self, image_ref: ImageRef) -> (h: usize)
        requires
            old(self)@.wf(),
            old(self)@.next_free < usize::MAX,
            image_ref is Strong,
        ensures
            final(self)@ == old(self)@.register_t(image_ref.id_spec()),
            final(self)@.wf(),
            h == old(self)@.next_free,
            h != 0,
            final(self)@.has_handle(h),
    {
        let image = image_ref.id();
        let h = self.next_free;
        self.entries.push(TextureEntry { handle: h, image });
        self.to_add.push(h);
        self.next_free = h + 1;
        proof {
            let v0 = old(self)@;
            let v = self@;
            assert(v.entries[v.entries.len() - 1].handle == h);
            assert(v.has_handle(h));
            assert forall|i: int|
                0 <= i < v.entries.len() implies 0 < #[trigger] v.entries[i].handle
                < v.next_free by {
                if i < v0.entries.len() {
                    assert(v.entries[i] == v0.entries[i]);
                }
            }
            assert forall|i: int, j: int|
                0 <= i < j < v.entries.len() implies #[trigger] v.entries[i].handle
                != #[trigger] v.entries[j].handle by {
                assert(v.entries[i] == v0.entries[i]);
                if j < v0.entries.len() {
                    assert(v.entries[j] == v0.entries[j]);
                } else {
                    assert(v.entries[j].handle == h);
                    assert(v0.entries[i].handle < v0.next_free);
                }
            }
        }
        h
    }

    /// Unregisters `handle`: drops the registry's reference to the image and
    /// queues the handle for removal on the render side. Unregistering a
    /// handle that is not live is a no-op, not an error.
    pub fn unregister(&mut self, handle: usize)
        requires
            old(self)@.wf(),
        ensures
            final(self)@ == old(self)@.unregister_t(handle),
            final(self)@.wf(),
            !old(self)@.has_handle(handle) ==> final(self)@ == old(self)@,
    {
        match self.find(handle) {
            None => {
            },
            Some(i) => {
                proof {
                    let v = old(self)@;
                    assert(v.has_handle(handle));
                    let j = v.index_of(handle);
                    assert(0 <= j < v.entries.len() && v.entries[j].handle == handle);
                    assert(j == i) by {
                        if j < i {
                            assert(v.entries[j].handle != v.entries[i as int].handle);
                        } else if i < j {
                            assert(v.entries[i as int].handle != v.entries[j].handle);
                        }
                    }
                }
                self.entries.remove(i);
                self.to_remove.push(handle);
            },
        }
    }

    /// Hands the accumulated deltas to the caller and clears both queues in
    /// the same step: adds first, removes second. Each delta is therefore
    /// seen by exactly one drain.
    pub fn drain_deltas(&mut self) -> (r: (Vec<usize>, Vec<usize>))
        requires
            old(self)@.wf(),
        ensures
            final(self)@ == old(self)@.drained_t(),
            final(self)@.wf(),
            r.0@ == old(self)@.to_add,
            r.1@ == old(self)@.to_remove,
    {
        let mut adds: Vec<usize> = Vec::new();
        let mut removes: Vec<usize> = Vec::new();
        core::mem::swap(&mut adds, &mut self.to_add);
        core::mem::swap(&mut removes, &mut self.to_remove);
        (adds, removes)
    }

    /// Re-marks every live handle for re-add. Called when a renderer rebuild
    /// has discarded the GPU-side bindings: the registry's mapping is
    /// unchanged, but every live handle must cross to the render side again.
    pub fn mark_all_for_readd(&mut self)
        requires
            old(self)@.wf(),
        ensures
            final(self)@ == old(self)@.mark_all_t(),
            final(self)@.wf(),
    {
        let n = self.entries.len();
        let mut i: usize = 0;
        while i < n
            invariant
                i <= n,
                n == self.entries@.len(),
                self.entries@ == old(self)@.entries,
                self.to_remove@ == old(self)@.to_remove,
                self.next_free == old(self)@.next_free,
                self.to_add@ == old(self)@.to_add + old(self)@.entries.subrange(0, i as int)
                    .map_values(|e: TextureEntry| e.handle),
            decreases n - i,
        {
            proof {
                let pre = old(self)@.entries.subrange(0, i as int)
                    .map_values(|e: TextureEntry| e.handle);
                let post = old(self)@.entries.subrange(0, i + 1int)
                    .map_values(|e: TextureEntry| e.handle);
                assert(post =~= pre.push(old(self)@.entries[i as int].handle));
                assert(old(self)@.to_add + post =~= (old(self)@.to_add + pre).push(
                    old(self)@.entries[i as int].handle,
                ));
            }
            let h = self.entries[i].handle;
            self.to_add.push(h);
            i = i + 1;
        }
        proof {
            assert(old(self)@.entries.subrange(0, n as int) =~= old(self)@.entries);
            assert(self@.to_add =~= old(self)@.to_add + old(self)@.handles());
            assert(self@ =~= old(self)@.mark_all_t());
        }
    }

    /// Records the font texture id chosen by the renderer: the allocation
    /// counter is bumped past it so that no handle this registry hands out
    /// can ever alias the font texture.
    pub fn note_font_texture(&mut self, font: usize)
        requires
            old(self)@.wf(),
            font < usize::MAX,
        ensures
            final(self)@ == old(self)@.note_font_t(font),
            final(self)@.wf(),
    {
        if self.next_free <= font {
            self.next_free = font + 1;
        }
        proof {
            assert(self@ =~= old(self)@.note_font_t(font));
        }
    }

    /// Whether `handle` is currently registered.
    pub fn contains(&self, handle: usize) -> (r: bool)
        ensures
            r == self@.has_handle(handle),
    {
        match self.find(handle) {
            Some(_) => true,
            None => false,
        }
    }

    /// The image registered under `handle`, if `handle` is live.
    pub fn lookup(&self, handle: usize) -> (r: Option<u64>)
        requires
            self@.wf(),
        ensures
            self@.has_handle(handle) ==> r == Some(self@.image_of(handle)),
            !self@.has_handle(handle) ==> r is None,
    {
        match self.find(handle) {
            None => None,
            Some(i) => {
                proof {
                    let v = self@;
                    assert(v.has_handle(handle));
                    let j = v.index_of(handle);
                    assert(0 <= j < v.entries.len() && v.entries[j].handle == handle);
                    assert(j == i) by {
                        if j < i {
                            assert(v.entries[j].handle != v.entries[i as int].handle);
                        } else if i < j {
                            assert(v.entries[i as int].handle != v.entries[j].handle);
                        }
                    }
                }
                Some(self.entries[i].image)
            },
        }
    }

    /// The handle the next registration will be given.
    pub fn next_handle(&self) -> (r: usize)
        ensures
            r == self@.next_free,
    {
        self.next_free
    }

    /// The number of live registrations.
    pub fn len(&self) -> (r: usize)
        ensures
            r == self@.entries.len(),
    {
        self.entries.len()
    }
}

/// Law: a registration followed at once by an unregistration of the same
/// handle, with no drain in between, still shows that handle in both queues
/// of the next drain. The add/remove pair is observable; it is not collapsed
/// away.
pub proof fn lemma_register_then_unregister_observable(v: RegistryView, image: u64)
    requires
        v.wf(),
        v.next_free < usize::MAX,
    ensures
        ({
            let h = v.next_free;
            let after = v.register_t(image).unregister_t(h);
            &&& after.to_add.contains(h)
            &&& after.to_remove.contains(h)
        }),
{
    let h = v.next_free;
    let v1 = v.register_t(image);
    assert(v1.entries[v1.entries.len() - 1].handle == h);
    assert(v1.has_handle(h));
    let after = v1.unregister_t(h);
    assert(after.to_add[v.to_add.len() as int] == h);
    assert(after.to_add.contains(h));
    assert(after.to_remove[after.to_remove.len() - 1] == h);
    assert(after.to_remove.contains(h));
}

/// Law: unregistering a handle that is not registered changes nothing — not
/// the entries, not either queue, not the allocation counter.
pub proof fn lemma_unregister_unknown_is_noop(v: RegistryView, h: usize)
    requires
        !v.has_handle(h),
    ensures
        v.unregister_t(h) == v,
{
}

/// Law: when a renderer rebuild re-marks the registry, every handle that is
/// still registered appears among the adds of the next drain, even though
/// the caller made no new registration call.
pub proof fn lemma_rebuild_readds_every_live_handle(v: RegistryView, h: usize)
    requires
        v.wf(),
        v.has_handle(h),
    ensures
        v.mark_all_t().to_add.contains(h),
{
    let i = choose|i: int| 0 <= i < v.entries.len() && v.entries[i].handle == h;
    let marked = v.mark_all_t();
    assert(v.handles()[i] == h);
    assert(marked.to_add[v.to_add.len() + i] == h);
    assert(marked.to_add.contains(h));
}

} // verus!
