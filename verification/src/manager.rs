//! The container manager: the single owner of the active container and
//! of the font cache.
//!
//! The host surface hands the manager one translated event at a time.
//! The manager dispatches it into the active container; if the handled
//! widget returns a navigation action, the manager replaces the active
//! container only after dispatch has fully returned, and before it will
//! accept the next event. The replaced container and all its widgets are
//! dropped entirely: no widget state survives a navigation, and no later
//! event can reach the old container.

use vstd::prelude::*;

use crate::container::{
    cont_after_key, cont_after_pointer, cont_pointer_nav, lemma_after_key_wf,
    lemma_after_pointer_wf, Container, ContainerV,
};
use crate::fonts::{add_or_get_post, lookup, FontCache, FontCacheV, FontDescription, FontHandle};
use crate::geometry::Point;
use crate::screens::{build_screen, is_screen};
use crate::widget::{NavigationAction, PointerEventKind};

verus! {

/// The manager: exactly one container is active at any instant, and the
/// font cache is the only resource shared across containers.
#[derive(Debug)]
pub struct ContainerManager {
    active: Option<Container>,
    font_cache: FontCache,
}

/// The mathematical value of the manager.
#[verifier::ext_equal]
pub struct ManagerV {
    pub active: Option<ContainerV>,
    pub cache: FontCacheV,
}

impl View for ContainerManager {
    type V = ManagerV;

    closed spec fn view(&self) -> ManagerV {
        ManagerV {
            active: match self.active {
                None => None,
                Some(c) => Some(c@),
            },
            cache: self.font_cache@,
        }
    }
}

impl ManagerV {
    /// The manager's invariant: the active container, if any, is well
    /// formed, and so is the cache.
    pub open spec fn wf(self) -> bool {
        &&& match self.active {
            None => true,
            Some(c) => c.wf(),
        }
        &&& self.cache.wf()
    }
}

/// The navigation a pointer event produces: the active container's
/// answer, or nothing while no container is active.
pub open spec fn manager_pointer_nav(m: ManagerV, p: Point, k: PointerEventKind) -> Option<
    NavigationAction,
> {
    match m.active {
        None => None,
        Some(c) => cont_pointer_nav(c, p, k),
    }
}

/// Dispatch consults nothing but the installed container: two manager
/// states sharing one active container route every event identically,
/// so once a replacement is installed, no trace of the replaced
/// container can influence any subsequent hit-test or dispatch.
pub proof fn lemma_replacement_isolates(
    m1: ManagerV,
    m2: ManagerV,
    c: ContainerV,
    p: Point,
    k: PointerEventKind,
)
    requires
        m1.active == Some(c),
        m2.active == Some(c),
    ensures
        manager_pointer_nav(m1, p, k) == cont_pointer_nav(c, p, k),
        manager_pointer_nav(m2, p, k) == cont_pointer_nav(c, p, k),
{
}

impl ContainerManager {
    /// A manager with no active container and an empty font cache; the
    /// caller must install a container before the first event arrives.
    /// Acquiring the canvas surface and registering event listeners is
    /// the host's concern, outside this core.
    pub fn start() -> (m: ContainerManager)
        ensures
            m@.active is None,
            m@.cache.entries =~= Seq::<crate::fonts::FontEntryV>::empty(),
            m@.wf(),
    {
        ContainerManager { active: None, font_cache: FontCache::new() }
    }

    /// The active container, for the external renderer to composite;
    /// `None` until one is installed.
    pub fn active_container(&self) -> (r: Option<&Container>)
        ensures
            match r {
                None => self@.active is None,
                Some(c) => self@.active == Some(c@),
            },
    {
        self.active.as_ref()
    }

    /// Installs `c` as the active container. The previous container and
    /// all its widgets and handlers are dropped entirely.
    pub fn set_container(&mut self, c: Container)
        ensures
            final(self)@.active == Some(c@),
            final(self)@.cache == old(self)@.cache,
    {
        self.active = Some(c);
    }

    /// Loads the described font, or fetches its existing handle.
    pub fn add_font(&mut self, desc: FontDescription) -> (h: FontHandle)
        requires
            old(self)@.cache.wf(),
        ensures
            final(self)@.active == old(self)@.active,
            final(self)@.cache.wf(),
            add_or_get_post(old(self)@.cache, desc@, final(self)@.cache, h),
    {
        self.font_cache.add_or_get(desc)
    }

    /// The font cache, shared across containers: screen-construction
    /// code reads it to reuse fonts before building widgets.
    pub fn get_font_cache(&self) -> (r: &FontCache)
        ensures
            r@ == self@.cache,
    {
        &self.font_cache
    }

    /// The handle of an already-loaded font, without loading.
    pub fn get_font_by_details(&self, desc: &FontDescription) -> (r: Option<FontHandle>)
        ensures
            r == lookup(self@.cache.entries, desc@),
    {
        self.font_cache.get_by_description(desc)
    }

    /// Dispatches one pointer event into the active container, then —
    /// only after dispatch has fully returned — applies any navigation
    /// the handled widget requested, so that the next event already
    /// reaches the replacement. With no active container the event is
    /// absorbed.
    pub fn process_pointer_event(&mut self, p: Point, k: PointerEventKind) -> (nav: Option<
        NavigationAction,
    >)
        requires
            old(self)@.wf(),
        ensures
            final(self)@.wf(),
            final(self)@.cache == old(self)@.cache,
            nav == manager_pointer_nav(old(self)@, p, k),
            match old(self)@.active {
                None => final(self)@.active is None,
                Some(c) => match nav {
                    None => final(self)@.active == Some(cont_after_pointer(c, p, k)),
                    Some(n) => final(self)@.active matches Some(c2) && is_screen(
                        c2,
                        n.target,
                        n.font,
                    ) && c2.wf(),
                },
            },
    {
        let nav = match &mut self.active {
            None => None,
            Some(c) => {
                let nav = c.dispatch(p, k);
                proof {
                    lemma_after_pointer_wf(old(self)@.active->Some_0, p, k);
                }
                nav
            },
        };
        if let Some(n) = nav {
            let next = build_screen(n.target, n.font);
            self.active = Some(next);
        }
        nav
    }

    /// Dispatches one typed character to the focused widget of the
    /// active container, if any; typing never navigates.
    pub fn process_key_event(&mut self, ch: char) -> (nav: Option<NavigationAction>)
        requires
            old(self)@.wf(),
        ensures
            final(self)@.wf(),
            final(self)@.cache == old(self)@.cache,
            nav is None,
            match old(self)@.active {
                None => final(self)@.active is None,
                Some(c) => final(self)@.active == Some(cont_after_key(c, ch)),
            },
    {
        match &mut self.active {
            None => None,
            Some(c) => {
                let nav = c.dispatch_key(ch);
                proof {
                    lemma_after_key_wf(old(self)@.active->Some_0, ch);
                }
                nav
            },
        }
    }
}

} // verus!
