//! The widget state store: identity-keyed persistence of each widget's
//! last discrete interaction state across frames.  The surrounding
//! application loop owns one store, reads a widget's state at the start
//! of its per-frame call and writes the new state back at the end;
//! an identity not drawn in a frame simply keeps its stale state.

use vstd::prelude::*;
use std::collections::HashMap;
use crate::geometry::{Dimensions, Point};
use crate::envelope_editor;
use crate::text_box;
use crate::xy_pad;

verus! {

broadcast use vstd::std_specs::hash::group_hash_axioms;

/// A widget's persisted state, tagged by widget kind.
#[derive(Clone, Copy, Debug, PartialEq, Eq, Structural)]
pub enum Widget {
    EnvelopeEditor(envelope_editor::State),
    TextBox(text_box::State),
    XYPad(xy_pad::State),
}

/// What the store keeps per identity: the widget's state, and the
/// position and size it was last drawn with, which layout and clipping
/// read.
#[derive(Clone, Copy, Debug, PartialEq, Eq, Structural)]
pub struct StoredWidget {
    pub widget: Widget,
    pub pos: Point,
    pub dim: Dimensions,
}

/// The identity-keyed store.  Keys are the stable widget identities the
/// surrounding application allocates; the core never generates them.
pub struct WidgetStore {
    map: HashMap<u64, StoredWidget>,
}

impl WidgetStore {
    /// The store's contents as a map from identity to stored widget.
    pub closed spec fn view(&self) -> Map<u64, StoredWidget> {
        self.map@
    }

    /// An empty store.
    pub fn new() -> (r: WidgetStore)
        ensures
            r@ == Map::<u64, StoredWidget>::empty(),
    {
        WidgetStore { map: HashMap::new() }
    }

    /// The state persisted for an identity, or the given widget-kind
    /// default the first time the identity is seen; a first sight also
    /// records the default, at the origin with an empty size.
    pub fn get_or_init(&mut self, ui_id: u64, default: Widget) -> (r: Widget)
        ensures
            old(self)@.contains_key(ui_id) ==> r == old(self)@[ui_id].widget && final(self)@
                == old(self)@,
            !old(self)@.contains_key(ui_id) ==> r == default && final(self)@ == old(
                self,
            )@.insert(
                ui_id,
                StoredWidget {
                    widget: default,
                    pos: Point { x: 0, y: 0 },
                    dim: Dimensions { w: 0, h: 0 },
                },
            ),
    {
        match self.map.get(&ui_id) {
            Some(stored) => stored.widget,
            None => {
                self.map.insert(
                    ui_id,
                    StoredWidget {
                        widget: default,
                        pos: Point { x: 0, y: 0 },
                        dim: Dimensions { w: 0, h: 0 },
                    },
                );
                default
            },
        }
    }

    /// Persist a widget's state, position and size for its identity.
    pub fn set_widget(&mut self, ui_id: u64, widget: Widget, pos: Point, dim: Dimensions)
        ensures
            final(self)@ == old(self)@.insert(ui_id, StoredWidget { widget, pos, dim }),
    {
        self.map.insert(ui_id, StoredWidget { widget, pos, dim });
    }

    /// The state persisted for an identity, if the identity was seen.
    pub fn get(&self, ui_id: u64) -> (r: Option<Widget>)
        ensures
            self@.contains_key(ui_id) ==> r == Some(self@[ui_id].widget),
            !self@.contains_key(ui_id) ==> r is None,
    {
        match self.map.get(&ui_id) {
            Some(stored) => Some(stored.widget),
            None => None,
        }
    }
}

} // verus!
