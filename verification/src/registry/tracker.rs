//! The derivation of a catalog's layout: a step that runs every tick and
//! builds the layout at most once, and the handles it keeps.

use crate::assets::Atlases;
use crate::atlas::{AtlasConfig, AtlasLayout, Grid, LayoutHandle, LayoutStore};
use crate::registry::Registry;
use crate::render::ImageHandle;
use std::marker::PhantomData;
use vstd::prelude::*;

verus! {

/// Names the load of one catalog.
#[derive(Clone, Copy, Debug, PartialEq, Eq, Structural)]
pub struct RegistryHandle {
    pub id: u64,
}

/// What is kept for one catalog while it loads and afterwards: the handle of
/// the load, and the handle of the layout derived from the catalog once there
/// is one.
pub struct RegistryHandles<Item> {
    registry: RegistryHandle,
    atlas_layout: Option<LayoutHandle>,
    kind: PhantomData<Item>,
}

impl<Item> RegistryHandles<Item> {
    pub closed spec fn spec_registry(&self) -> RegistryHandle {
        self.registry
    }

    pub closed spec fn spec_atlas_layout(&self) -> Option<LayoutHandle> {
        self.atlas_layout
    }

    /// The handles of a catalog whose load has just been requested: no
    /// layout has been derived yet.
    pub fn new(inner: RegistryHandle) -> (handles: RegistryHandles<Item>)
        ensures
            handles.spec_registry() == inner,
            handles.spec_atlas_layout() is None,
    {
        RegistryHandles { registry: inner, atlas_layout: None, kind: PhantomData }
    }

    #[verifier::when_used_as_spec(spec_registry)]
    pub fn registry(&self) -> (handle: RegistryHandle)
        ensures
            handle == self.spec_registry(),
    {
        self.registry
    }

    #[verifier::when_used_as_spec(spec_atlas_layout)]
    pub fn atlas_layout(&self) -> (handle: Option<LayoutHandle>)
        ensures
            handle == self.spec_atlas_layout(),
    {
        self.atlas_layout
    }
}

/// The state that the derivation of a layout moves through: the handle of
/// the layout, the latch that is set once the question is settled, and the
/// layouts built so far.
pub struct TrackerState {
    pub atlas_layout: Option<LayoutHandle>,
    pub run_once: bool,
    pub layouts: Seq<Grid>,
}

/// One check-and-build step. `declared` is `None` while the catalog has not
/// loaded, and otherwise what the catalog declares as its grid. Nothing
/// happens before the catalog has loaded, nor once the latch is set. The
/// first step after loading sets the latch; where the catalog declares a
/// grid, it also builds the layout and keeps its handle.
pub open spec fn atlas_step(declared: Option<Option<AtlasConfig>>, state: TrackerState)
    -> TrackerState {
    match declared {
        None => state,
        Some(grid) => if state.run_once {
            state
        } else {
            match grid {
                None => TrackerState { run_once: true, ..state },
                Some(config) => TrackerState {
                    atlas_layout: Some(LayoutHandle { index: state.layouts.len() as usize }),
                    run_once: true,
                    layouts: state.layouts.push(config.grid()),
                },
            }
        },
    }
}

/// What a catalog declares as its grid; `None` for a catalog that has not
/// loaded.
pub open spec fn declared_grid<Item>(loaded: Option<&Registry<Item>>) -> Option<
    Option<AtlasConfig>,
> {
    match loaded {
        Some(registry) => Some(registry@.atlas_layout),
        None => None,
    }
}

impl<Item> Registry<Item> {
    /// Takes one check-and-build step for the catalog that `handle` belongs
    /// to. `loaded` is the catalog once its load has ended well, `run_once`
    /// the latch of this step.
    pub fn create_atlas_handle(
        loaded: Option<&Registry<Item>>,
        handle: &mut RegistryHandles<Item>,
        texture_atlas_layouts: &mut LayoutStore,
        run_once: &mut bool,
    )
        ensures
            final(handle).spec_registry() == old(handle).spec_registry(),
            (TrackerState {
                atlas_layout: final(handle).spec_atlas_layout(),
                run_once: *final(run_once),
                layouts: final(texture_atlas_layouts)@,
            }) == atlas_step(
                declared_grid(loaded),
                TrackerState {
                    atlas_layout: old(handle).spec_atlas_layout(),
                    run_once: *old(run_once),
                    layouts: old(texture_atlas_layouts)@,
                },
            ),
    {
        let registry = match loaded {
            Some(registry) => registry,
            None => {
                return ;
            },
        };
        if *run_once {
            return ;
        }
        let atlas_layout = match registry.atlas_layout {
            Some(atlas_layout) => atlas_layout,
            None => {
                *run_once = true;
                return ;
            },
        };
        let atlas_layout = AtlasLayout::from_grid(&atlas_layout);
        let atlas_layout_handle = texture_atlas_layouts.add(atlas_layout);
        handle.atlas_layout = Some(atlas_layout_handle);
        *run_once = true;
    }
}

/// A view of one catalog for the systems that use it: its handles, and the
/// catalog itself once it has loaded.
#[verifier::reject_recursive_types(Item)]
pub struct RegistryAccess<'w, Item> {
    handle: &'w RegistryHandles<Item>,
    registries: Option<&'w Registry<Item>>,
}

impl<'w, Item> RegistryAccess<'w, Item> {
    pub closed spec fn spec_handle(&self) -> RegistryHandles<Item> {
        *self.handle
    }

    pub closed spec fn spec_registry(&self) -> Option<Registry<Item>> {
        match self.registries {
            Some(registry) => Some(*registry),
            None => None,
        }
    }

    /// Whether the catalog has loaded.
    pub open spec fn is_loaded(&self) -> bool {
        self.spec_registry() is Some
    }

    /// What the catalog declares as its grid; `None` while it has not
    /// loaded.
    pub open spec fn spec_declared(&self) -> Option<Option<AtlasConfig>> {
        match self.spec_registry() {
            Some(catalog) => Some(catalog@.atlas_layout),
            None => None,
        }
    }

    /// The image that `atlases` holds under the name of the catalog; none
    /// while the catalog has not loaded.
    pub open spec fn spec_image(&self, atlases: Atlases) -> Option<ImageHandle> {
        match self.spec_registry() {
            Some(catalog) => atlases.spec_get_field(catalog@.identifier),
            None => None,
        }
    }

    pub fn new(handle: &'w RegistryHandles<Item>, registries: Option<&'w Registry<Item>>) -> (access:
        RegistryAccess<'w, Item>)
        ensures
            access.spec_handle() == *handle,
            access.spec_registry() == (match registries {
                Some(registry) => Some(*registry),
                None => None,
            }),
    {
        RegistryAccess { handle, registries }
    }

    /// The catalog. It must have loaded.
    pub fn registry(&self) -> (registry: &Registry<Item>)
        requires
            self.is_loaded(),
        ensures
            Some(*registry) == self.spec_registry(),
    {
        self.registries.unwrap()
    }

    /// The catalog, where it has loaded.
    pub fn loaded(&self) -> (registry: Option<&Registry<Item>>)
        ensures
            match registry {
                Some(found) => self.spec_registry() == Some(*found),
                None => !self.is_loaded(),
            },
    {
        self.registries
    }

    /// The handle of the layout derived from the catalog, once there is one.
    pub fn texture_atlas_layout(&self) -> (layout: Option<LayoutHandle>)
        ensures
            layout == self.spec_handle().spec_atlas_layout(),
    {
        self.handle.atlas_layout
    }
}

/// The state after `n` check-and-build steps that all see the same catalog.
pub open spec fn atlas_steps(declared: Option<Option<AtlasConfig>>, state: TrackerState, n: nat)
    -> TrackerState
    decreases n,
{
    if n == 0 {
        state
    } else {
        atlas_step(declared, atlas_steps(declared, state, (n - 1) as nat))
    }
}

/// While the catalog has not loaded, no number of steps changes anything.
pub proof fn lemma_steps_before_loading_do_nothing(state: TrackerState, n: nat)
    ensures
        atlas_steps(None, state, n) == state,
    decreases n,
{
    if n > 0 {
        lemma_steps_before_loading_do_nothing(state, (n - 1) as nat);
    }
}

/// Once the latch is set, no number of steps changes anything, whatever the
/// catalog declares.
pub proof fn lemma_steps_after_latch_do_nothing(
    declared: Option<Option<AtlasConfig>>,
    state: TrackerState,
    n: nat,
)
    requires
        state.run_once,
    ensures
        atlas_steps(declared, state, n) == state,
    decreases n,
{
    if n > 0 {
        lemma_steps_after_latch_do_nothing(declared, state, (n - 1) as nat);
    }
}

/// However many steps run after a catalog with a grid has loaded, exactly
/// one layout is built: the state after any number of steps is the state
/// after the first, which holds one layout more than before, the layout of
/// the declared grid, and the handle that names it.
pub proof fn lemma_layout_is_built_once(config: AtlasConfig, state: TrackerState, n: nat)
    requires
        !state.run_once,
        n >= 1,
    ensures
        atlas_steps(Some(Some(config)), state, n) == atlas_step(Some(Some(config)), state),
        atlas_steps(Some(Some(config)), state, n).layouts == state.layouts.push(config.grid()),
        atlas_steps(Some(Some(config)), state, n).layouts.len() == state.layouts.len() + 1,
        atlas_steps(Some(Some(config)), state, n).atlas_layout == Some(
            LayoutHandle { index: state.layouts.len() as usize },
        ),
    decreases n,
{
    if n > 1 {
        lemma_layout_is_built_once(config, state, (n - 1) as nat);
    } else {
        assert(atlas_steps(Some(Some(config)), state, 0) == state);
    }
}

/// A catalog without a grid never gets a layout: however many steps run, no
/// layout is built and the handle stays absent.
pub proof fn lemma_skip_is_permanent(state: TrackerState, n: nat)
    requires
        state.atlas_layout is None,
    ensures
        atlas_steps(Some(None), state, n).atlas_layout is None,
        atlas_steps(Some(None), state, n).layouts == state.layouts,
    decreases n,
{
    if n > 0 {
        lemma_skip_is_permanent(state, (n - 1) as nat);
    }
}

} // verus!
