//! The telemetry and command database of a spacecraft: its model, the
//! parser of the tables that it is written in, and the merge of databases.

pub mod bundle;
pub mod cmd;
pub mod error;
pub mod escape;
pub mod record;
pub mod text;
pub mod tlm;
pub mod util;

pub use record::PosStringRecord;

use vstd::prelude::*;

verus! {

/// The definitions of every component of a spacecraft.
#[derive(Debug, Clone, PartialEq, Eq)]
pub struct Database {
    pub components: Vec<Component>,
}

/// The telemetry and the commands of one component.
#[derive(Debug, Clone, PartialEq, Eq)]
pub struct Component {
    pub name: String,
    pub tlm: tlm::Database,
    pub cmd: cmd::Database,
}

/// The mathematical value of a [`Database`].
pub struct DatabaseView {
    pub components: Seq<ComponentView>,
}

/// The mathematical value of a [`Component`].
pub struct ComponentView {
    pub name: Seq<char>,
    pub tlm: tlm::DatabaseView,
    pub cmd: cmd::DatabaseView,
}

/// The values of a sequence of components.
pub open spec fn components_view(components: Seq<Component>) -> Seq<ComponentView> {
    components.map_values(|c: Component| c@)
}

impl View for Database {
    type V = DatabaseView;

    open spec fn view(&self) -> DatabaseView {
        DatabaseView { components: components_view(self.components@) }
    }
}

impl View for Component {
    type V = ComponentView;

    open spec fn view(&self) -> ComponentView {
        ComponentView { name: self.name@, tlm: self.tlm@, cmd: self.cmd@ }
    }
}

} // verus!
