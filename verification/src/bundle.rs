//! Putting a database together: from the tables of its components, and
//! from databases that each hold some of the components.

use crate::error::{ErrorKind, ErrorKindView};
use crate::text::{
    Order, compare_text, first_where, lemma_first_where, lemma_first_where_is_first,
    lemma_text_less_total, lemma_text_less_transitive, text_less,
};
use crate::tlm::{Telemetry, TelemetryView};
use crate::util::reversed;
use crate::{Component, ComponentView, Database, DatabaseView, cmd, components_view, tlm};
use vstd::prelude::*;

verus! {

/// The values of a sequence of telemetry definitions.
pub open spec fn telemetries_view(telemetries: Seq<Telemetry>) -> Seq<TelemetryView> {
    telemetries.map_values(|t: Telemetry| t@)
}

/// The property of a telemetry definition that its name comes after `name`.
pub open spec fn named_after(name: Seq<char>) -> spec_fn(TelemetryView) -> bool {
    |t: TelemetryView| text_less(name, t.name)
}

/// `sorted` with `telemetry` put behind every definition whose name does
/// not come after its own.
pub open spec fn insert_by_name(sorted: Seq<TelemetryView>, telemetry: TelemetryView) -> Seq<
    TelemetryView,
> {
    sorted.insert(first_where(sorted, named_after(telemetry.name)), telemetry)
}

/// `telemetries` in the order of their names, those of one name in the
/// order in which they stand.
pub open spec fn sort_by_name(telemetries: Seq<TelemetryView>) -> Seq<TelemetryView>
    decreases telemetries.len(),
{
    if telemetries.len() == 0 {
        telemetries
    } else {
        insert_by_name(sort_by_name(telemetries.drop_last()), telemetries.last())
    }
}

/// Whether no definition of `telemetries` has a name that comes before the
/// name of one that stands before it.
pub open spec fn ordered_by_name(telemetries: Seq<TelemetryView>) -> bool {
    forall|i: int, j: int|
        0 <= i < j < telemetries.len() ==> !text_less(
            (#[trigger] telemetries[j]).name,
            (#[trigger] telemetries[i]).name,
        )
}

proof fn lemma_insert_by_name(sorted: Seq<TelemetryView>, telemetry: TelemetryView)
    requires
        ordered_by_name(sorted),
    ensures
        ordered_by_name(insert_by_name(sorted, telemetry)),
        insert_by_name(sorted, telemetry).to_multiset() == sorted.to_multiset().insert(telemetry),
{
    let p = first_where(sorted, named_after(telemetry.name));
    lemma_first_where_is_first(sorted, named_after(telemetry.name));
    let out = insert_by_name(sorted, telemetry);
    assert forall|i: int, j: int| 0 <= i < j < out.len() implies !text_less(
        (#[trigger] out[j]).name,
        (#[trigger] out[i]).name,
    ) by {
        if i == p {
            lemma_text_less_total(telemetry.name, sorted[j - 1].name);
            if text_less(sorted[j - 1].name, telemetry.name) {
                lemma_text_less_transitive(sorted[j - 1].name, telemetry.name, sorted[p].name);
            }
        }
    }
    assert(sorted =~= sorted.take(p) + sorted.skip(p));
    vstd::seq_lib::lemma_multiset_commutative(sorted.take(p).push(telemetry), sorted.skip(p));
    vstd::seq_lib::lemma_multiset_commutative(sorted.take(p), sorted.skip(p));
    sorted.take(p).to_multiset_ensures();
}

/// Sorting by name puts the definitions in the order of their names and
/// neither adds nor loses one.
pub proof fn lemma_sort_by_name(telemetries: Seq<TelemetryView>)
    ensures
        ordered_by_name(sort_by_name(telemetries)),
        sort_by_name(telemetries).to_multiset() == telemetries.to_multiset(),
    decreases telemetries.len(),
{
    if telemetries.len() > 0 {
        lemma_sort_by_name(telemetries.drop_last());
        lemma_insert_by_name(sort_by_name(telemetries.drop_last()), telemetries.last());
        telemetries.drop_last().to_multiset_ensures();
        assert(telemetries =~= telemetries.drop_last().push(telemetries.last()));
    }
}

/// Sorts telemetry definitions by name.
pub fn sort_telemetries(telemetries: Vec<Telemetry>) -> (r: Vec<Telemetry>)
    ensures
        telemetries_view(r@) == sort_by_name(telemetries_view(telemetries@)),
{
    let ghost all = telemetries_view(telemetries@);
    let ghost n = telemetries@.len();
    let mut pending = reversed(telemetries);
    let mut sorted: Vec<Telemetry> = Vec::new();
    while pending.len() > 0
        invariant
            pending@.len() <= n,
            n == telemetries@.len(),
            all == telemetries_view(telemetries@),
            pending@ == telemetries@.reverse().take(pending@.len() as int),
            telemetries_view(sorted@) == sort_by_name(all.take(n - pending@.len())),
        decreases pending.len(),
    {
        let ghost k = n - pending@.len();
        let ghost before = telemetries_view(sorted@);
        let telemetry = pending.pop().unwrap();
        assert(all.take(k + 1).drop_last() == all.take(k));
        let mut i: usize = 0;
        while i < sorted.len() && compare_text(telemetry.name.as_str(), sorted[i].name.as_str())
            != Order::Before
            invariant
                i <= sorted.len(),
                before == telemetries_view(sorted@),
                forall|j: int| 0 <= j < i ==> !named_after(telemetry@.name)(#[trigger] before[j]),
            decreases sorted.len() - i,
        {
            i += 1;
        }
        proof {
            lemma_first_where(before, named_after(telemetry@.name), i as int);
        }
        sorted.insert(i, telemetry);
    }
    assert(all.take(n as int) == all);
    sorted
}

/// Whether the names of `components` ascend strictly, so that none occurs
/// twice.
pub open spec fn names_ascend(components: Seq<ComponentView>) -> bool {
    forall|i: int, j: int|
        0 <= i < j < components.len() ==> text_less(
            (#[trigger] components[i]).name,
            (#[trigger] components[j]).name,
        )
}

/// The property of a component that its name does not come before `name`.
pub open spec fn named_from(name: Seq<char>) -> spec_fn(ComponentView) -> bool {
    |c: ComponentView| !text_less(c.name, name)
}

/// Where the component `name` stands among `components`, or belongs.
pub open spec fn component_position(components: Seq<ComponentView>, name: Seq<char>) -> int {
    first_where(components, named_from(name))
}

/// Whether `components` holds the component `name` at `position`.
pub open spec fn holds_at(components: Seq<ComponentView>, name: Seq<char>, position: int) -> bool {
    0 <= position < components.len() && components[position].name == name
}

/// `component` with one more telemetry definition.
pub open spec fn with_telemetry(component: ComponentView, telemetry: TelemetryView) -> ComponentView {
    ComponentView {
        name: component.name,
        tlm: tlm::DatabaseView { telemetries: component.tlm.telemetries.push(telemetry) },
        cmd: component.cmd,
    }
}

/// `component` with `commands` in place of its own.
pub open spec fn with_commands(component: ComponentView, commands: cmd::DatabaseView) -> ComponentView {
    ComponentView { name: component.name, tlm: component.tlm, cmd: commands }
}

/// The components after `telemetry` has been added to the component
/// `name`, which is made if it is not there.
pub open spec fn add_telemetry_spec(
    components: Seq<ComponentView>,
    name: Seq<char>,
    telemetry: TelemetryView,
) -> Seq<ComponentView> {
    let position = component_position(components, name);
    if holds_at(components, name, position) {
        components.update(position, with_telemetry(components[position], telemetry))
    } else {
        components.insert(
            position,
            ComponentView {
                name,
                tlm: tlm::DatabaseView { telemetries: seq![telemetry] },
                cmd: cmd::DatabaseView { entries: Seq::empty() },
            },
        )
    }
}

/// The components after the component `name` has been given `commands`.
/// The component is made if it is not there.
pub open spec fn add_cmddb_spec(
    components: Seq<ComponentView>,
    name: Seq<char>,
    commands: cmd::DatabaseView,
) -> Seq<ComponentView> {
    let position = component_position(components, name);
    if holds_at(components, name, position) {
        components.update(position, with_commands(components[position], commands))
    } else {
        components.insert(
            position,
            ComponentView {
                name,
                tlm: tlm::DatabaseView { telemetries: Seq::empty() },
                cmd: commands,
            },
        )
    }
}

/// `component` with its telemetry definitions sorted by name.
pub open spec fn with_sorted_telemetries(component: ComponentView) -> ComponentView {
    ComponentView {
        name: component.name,
        tlm: tlm::DatabaseView { telemetries: sort_by_name(component.tlm.telemetries) },
        cmd: component.cmd,
    }
}

/// The database that the components make: each with its telemetry
/// definitions sorted by name.
pub open spec fn build_spec(components: Seq<ComponentView>) -> DatabaseView {
    DatabaseView { components: components.map_values(|c: ComponentView| with_sorted_telemetries(c)) }
}

proof fn lemma_insert_component(components: Seq<ComponentView>, component: ComponentView)
    requires
        names_ascend(components),
        !holds_at(components, component.name, component_position(components, component.name)),
    ensures
        names_ascend(components.insert(component_position(components, component.name), component)),
{
    let name = component.name;
    let p = component_position(components, name);
    lemma_first_where_is_first(components, named_from(name));
    let out = components.insert(p, component);
    assert forall|i: int, j: int| 0 <= i < j < out.len() implies text_less(
        (#[trigger] out[i]).name,
        (#[trigger] out[j]).name,
    ) by {
        if i == p {
            lemma_text_less_total(components[p].name, name);
            if j - 1 > p {
                lemma_text_less_transitive(name, components[p].name, components[j - 1].name);
            }
        }
    }
}

/// Collects the telemetry and the commands of components, one table at a
/// time, and makes a database of them.
pub struct DatabaseBuilder {
    /// The components by ascending name.
    components: Vec<Component>,
}

impl View for DatabaseBuilder {
    type V = Seq<ComponentView>;

    closed spec fn view(&self) -> Seq<ComponentView> {
        components_view(self.components@)
    }
}

impl DatabaseBuilder {
    #[verifier::type_invariant]
    spec fn ascending(self) -> bool {
        names_ascend(components_view(self.components@))
    }

    /// A builder without a component.
    pub fn new() -> (builder: DatabaseBuilder)
        ensures
            builder@ == Seq::<ComponentView>::empty(),
    {
        let builder = DatabaseBuilder { components: Vec::new() };
        builder
    }

    /// Where the component `name` stands, or belongs, and whether it is
    /// there.
    fn find(&self, name: &str) -> (r: (usize, bool))
        ensures
            r.0 == component_position(self@, name@),
            r.0 <= self.components.len(),
            r.1 == holds_at(self@, name@, r.0 as int),
    {
        let ghost all = self@;
        let mut i: usize = 0;
        let mut found = false;
        while i < self.components.len()
            invariant_except_break
                !found,
            invariant
                i <= self.components.len(),
                all == self@,
                forall|j: int| 0 <= j < i ==> !named_from(name@)(#[trigger] all[j]),
            ensures
                i <= self.components.len(),
                forall|j: int| 0 <= j < i ==> !named_from(name@)(#[trigger] all[j]),
                i < self.components.len() ==> named_from(name@)(all[i as int]),
                found == (i < self.components.len() && all[i as int].name == name@),
            decreases self.components.len() - i,
        {
            match compare_text(self.components[i].name.as_str(), name) {
                Order::Before => {
                    i += 1;
                },
                Order::Same => {
                    found = true;
                    break ;
                },
                Order::After => {
                    break ;
                },
            }
        }
        proof {
            lemma_first_where(all, named_from(name@), i as int);
        }
        (i, found)
    }

    /// Adds a telemetry definition to a component, which is made if the
    /// builder does not have it.
    pub fn add_telemetry(&mut self, component: String, telemetry: Telemetry)
        ensures
            final(self)@ == add_telemetry_spec(old(self)@, component@, telemetry@),
            names_ascend(final(self)@),
    {
        proof {
            use_type_invariant(&*self);
        }
        let ghost before = self@;
        let (position, found) = self.find(component.as_str());
        let mut components: Vec<Component> = Vec::new();
        core::mem::swap(&mut components, &mut self.components);
        if found {
            let mut entry = components.remove(position);
            entry.tlm.telemetries.push(telemetry);
            components.insert(position, entry);
            assert(components_view(components@) =~= before.update(
                position as int,
                with_telemetry(before[position as int], telemetry@),
            )) by {
                assert(entry@.tlm.telemetries =~= before[position as int].tlm.telemetries.push(
                    telemetry@,
                ));
            }
        } else {
            let mut telemetries: Vec<Telemetry> = Vec::new();
            telemetries.push(telemetry);
            let entry = Component {
                name: component,
                tlm: tlm::Database { telemetries },
                cmd: cmd::Database { entries: Vec::new() },
            };
            proof {
                lemma_insert_component(before, entry@);
                assert(entry@.tlm.telemetries =~= seq![telemetry@]);
                assert(entry@.cmd.entries =~= Seq::<cmd::EntryView>::empty());
            }
            components.insert(position, entry);
            assert(components_view(components@) =~= before.insert(position as int, entry@));
        }
        core::mem::swap(&mut components, &mut self.components);
    }

    /// Gives a component its commands, in place of those it had. The
    /// component is made if the builder does not have it.
    pub fn add_cmddb(&mut self, component: String, cmddb: cmd::Database)
        ensures
            final(self)@ == add_cmddb_spec(old(self)@, component@, cmddb@),
            names_ascend(final(self)@),
    {
        proof {
            use_type_invariant(&*self);
        }
        let ghost before = self@;
        let (position, found) = self.find(component.as_str());
        let mut components: Vec<Component> = Vec::new();
        core::mem::swap(&mut components, &mut self.components);
        if found {
            let mut entry = components.remove(position);
            entry.cmd = cmddb;
            components.insert(position, entry);
            assert(components_view(components@) =~= before.update(
                position as int,
                with_commands(before[position as int], cmddb@),
            ));
        } else {
            let entry = Component {
                name: component,
                tlm: tlm::Database { telemetries: Vec::new() },
                cmd: cmddb,
            };
            proof {
                lemma_insert_component(before, entry@);
                assert(entry@.tlm.telemetries =~= Seq::<TelemetryView>::empty());
            }
            components.insert(position, entry);
            assert(components_view(components@) =~= before.insert(position as int, entry@));
        }
        core::mem::swap(&mut components, &mut self.components);
    }

    /// Makes the database: the components by ascending name, each with its
    /// telemetry definitions sorted by name.
    pub fn build(self) -> (database: Database)
        ensures
            database@ == build_spec(self@),
            names_ascend(database@.components),
            forall|i: int|
                0 <= i < database@.components.len() ==> ordered_by_name(
                    (#[trigger] database@.components[i]).tlm.telemetries,
                ),
    {
        proof {
            use_type_invariant(&self);
        }
        let ghost all = self@;
        let mut pending = reversed(self.components);
        let ghost n = all.len();
        let mut components: Vec<Component> = Vec::new();
        while pending.len() > 0
            invariant
                pending@.len() + components@.len() == n,
                n == all.len(),
                forall|i: int|
                    0 <= i < pending@.len() ==> (#[trigger] pending@[i])@ == all[n - 1 - i],
                forall|i: int|
                    0 <= i < components@.len() ==> (#[trigger] components@[i])@
                        == with_sorted_telemetries(all[i]),
            decreases pending.len(),
        {
            let mut component = pending.pop().unwrap();
            let telemetries = sort_telemetries(component.tlm.telemetries);
            let sorted = Component {
                name: component.name,
                tlm: tlm::Database { telemetries },
                cmd: component.cmd,
            };
            components.push(sorted);
        }
        let database = Database { components };
        assert(database@.components =~= build_spec(all).components);
        assert forall|i: int| 0 <= i < database@.components.len() implies ordered_by_name(
            (#[trigger] database@.components[i]).tlm.telemetries,
        ) by {
            lemma_sort_by_name(all[i].tlm.telemetries);
        }
        database
    }
}

impl Default for DatabaseBuilder {
    fn default() -> (builder: DatabaseBuilder)
        ensures
            builder@ == Seq::<ComponentView>::empty(),
    {
        DatabaseBuilder::new()
    }
}

/// The values of a sequence of databases.
pub open spec fn databases_view(databases: Seq<Database>) -> Seq<DatabaseView> {
    databases.map_values(|d: Database| d@)
}

/// The components of `databases`, one database after the other.
pub open spec fn all_components(databases: Seq<DatabaseView>) -> Seq<ComponentView>
    decreases databases.len(),
{
    if databases.len() == 0 {
        Seq::empty()
    } else {
        all_components(databases.drop_last()) + databases.last().components
    }
}

/// Whether the component at `index` has the name of one that stands before
/// it.
pub open spec fn repeats_name(components: Seq<ComponentView>, index: int) -> bool {
    exists|i: int| 0 <= i < index && (#[trigger] components[i]).name == components[index].name
}

/// Whether no two of `components` share a name.
pub open spec fn names_differ(components: Seq<ComponentView>) -> bool {
    forall|i: int| 0 <= i < components.len() ==> !#[trigger] repeats_name(components, i)
}

/// The index of the first component that has the name of one before it, or
/// the number of components if there is none.
pub open spec fn first_repeat(components: Seq<ComponentView>) -> int
    decreases components.len(),
{
    if components.len() == 0 {
        0
    } else {
        let before = first_repeat(components.drop_last());
        if before < components.len() - 1 {
            before
        } else if repeats_name(components, components.len() - 1) {
            components.len() - 1
        } else {
            components.len() as int
        }
    }
}

/// What holding `databases` to the rule that no two components share a
/// name gives. The error names the first component, in the order of the
/// databases, that has the name of an earlier one.
pub open spec fn validate_spec(databases: Seq<DatabaseView>) -> Result<(), ErrorKindView> {
    let components = all_components(databases);
    let repeat = first_repeat(components);
    if 0 <= repeat < components.len() {
        Err(ErrorKindView::DuplicateComponentName { name: components[repeat].name })
    } else {
        Ok(())
    }
}

/// The merge of `databases`: the components of all, in the order of the
/// databases and in the order that each database has them in, if no two
/// share a name.
pub open spec fn merge_spec(databases: Seq<DatabaseView>) -> Result<DatabaseView, ErrorKindView> {
    match validate_spec(databases) {
        Err(e) => Err(e),
        Ok(()) => Ok(DatabaseView { components: all_components(databases) }),
    }
}

/// `first_repeat` is the least index of a component that repeats a name.
pub proof fn lemma_first_repeat(components: Seq<ComponentView>)
    ensures
        0 <= first_repeat(components) <= components.len(),
        forall|i: int|
            0 <= i < first_repeat(components) ==> !#[trigger] repeats_name(components, i),
        first_repeat(components) < components.len() ==> repeats_name(
            components,
            first_repeat(components),
        ),
    decreases components.len(),
{
    if components.len() > 0 {
        let front = components.drop_last();
        lemma_first_repeat(front);
        assert forall|i: int| 0 <= i < front.len() implies (repeats_name(front, i)
            <==> #[trigger] repeats_name(components, i)) by {
            if repeats_name(front, i) {
                let k = choose|k: int| 0 <= k < i && (#[trigger] front[k]).name == front[i].name;
                assert(components[k].name == components[i].name);
            }
            if repeats_name(components, i) {
                let k = choose|k: int|
                    0 <= k < i && (#[trigger] components[k]).name == components[i].name;
                assert(front[k].name == front[i].name);
            }
        }
    }
}

/// A merge succeeds exactly if no two components share a name, and then
/// gives the components of all databases in their order.
pub proof fn lemma_merge(databases: Seq<DatabaseView>)
    ensures
        names_differ(all_components(databases)) ==> merge_spec(databases) == Ok::<
            _,
            ErrorKindView,
        >(DatabaseView { components: all_components(databases) }),
        !names_differ(all_components(databases)) ==> (merge_spec(databases) matches Err(
            ErrorKindView::DuplicateComponentName { name },
        ) && exists|i: int, j: int|
            0 <= i < j < all_components(databases).len() && (#[trigger] all_components(
                databases,
            )[i]).name == name && (#[trigger] all_components(databases)[j]).name == name),
{
    let components = all_components(databases);
    lemma_first_repeat(components);
    let repeat = first_repeat(components);
    if repeat < components.len() {
        let i = choose|i: int|
            0 <= i < repeat && (#[trigger] components[i]).name == components[repeat].name;
        assert(components[i].name == components[repeat].name);
    }
}

/// The merge of two databases. If a component of one has the name of a
/// component of the other, the merge fails over a name that both have; if
/// no two components share a name, it gives the components of the first
/// followed by those of the second.
pub proof fn lemma_merge_two(first: DatabaseView, second: DatabaseView)
    ensures
        all_components(seq![first, second]) == first.components + second.components,
        names_differ(first.components + second.components) ==> merge_spec(seq![first, second])
            == Ok::<_, ErrorKindView>(
            DatabaseView { components: first.components + second.components },
        ),
        (exists|i: int, j: int|
            0 <= i < first.components.len() && 0 <= j < second.components.len()
                && (#[trigger] first.components[i]).name == (#[trigger] second.components[j]).name)
            ==> merge_spec(seq![first, second]) matches Err(
            ErrorKindView::DuplicateComponentName { .. },
        ),
{
    let databases = seq![first, second];
    assert(databases.drop_last() =~= seq![first]);
    assert(all_components(seq![first]) =~= all_components(seq![first].drop_last())
        + first.components);
    lemma_merge(databases);
    let components = first.components + second.components;
    if exists|i: int, j: int|
        0 <= i < first.components.len() && 0 <= j < second.components.len()
            && (#[trigger] first.components[i]).name == (#[trigger] second.components[j]).name {
        let (i, j) = choose|i: int, j: int|
            0 <= i < first.components.len() && 0 <= j < second.components.len()
                && (#[trigger] first.components[i]).name == (#[trigger] second.components[j]).name;
        let k = first.components.len() + j;
        assert(components[i].name == components[k].name);
        assert(repeats_name(components, k));
    }
}

/// Databases that are to become one.
#[derive(Debug)]
pub struct DatabaseSet {
    databases: Vec<Database>,
}

impl View for DatabaseSet {
    type V = Seq<DatabaseView>;

    closed spec fn view(&self) -> Seq<DatabaseView> {
        databases_view(self.databases@)
    }
}

/// The names of `components`, in their order.
pub open spec fn component_names(components: Seq<ComponentView>) -> Seq<Seq<char>> {
    components.map_values(|c: ComponentView| c.name)
}

/// The names of all components of `databases`, one database after the
/// other.
fn collect_names(databases: &Vec<Database>) -> (names: Vec<String>)
    ensures
        crate::record::cells_view(names@) == component_names(
            all_components(databases_view(databases@)),
        ),
{
    let ghost all = databases_view(databases@);
    let mut names: Vec<String> = Vec::new();
    let mut d: usize = 0;
    while d < databases.len()
        invariant
            d <= databases.len(),
            all == databases_view(databases@),
            crate::record::cells_view(names@) == component_names(
                all_components(all.take(d as int)),
            ),
        decreases databases.len() - d,
    {
        let ghost done = all_components(all.take(d as int));
        let components = &databases[d].components;
        assert(all.take(d + 1).drop_last() =~= all.take(d as int));
        let mut c: usize = 0;
        while c < components.len()
            invariant
                c <= components.len(),
                crate::record::cells_view(names@) == component_names(
                    done + components_view(components@).take(c as int),
                ),
            decreases components.len() - c,
        {
            let ghost before = names@;
            names.push(components[c].name.clone());
            assert(crate::record::cells_view(names@) =~= component_names(
                done + components_view(components@).take(c + 1),
            )) by {
                assert(crate::record::cells_view(names@) =~= crate::record::cells_view(
                    before,
                ).push(components@[c as int].name@));
            }
            c += 1;
        }
        d += 1;
    }
    assert(all.take(databases.len() as int) == all);
    names
}

impl DatabaseSet {
    /// A set without a database.
    pub fn new() -> (set: DatabaseSet)
        ensures
            set@ == Seq::<DatabaseView>::empty(),
    {
        let set = DatabaseSet { databases: Vec::new() };
        set
    }

    /// Adds a database to the set.
    pub fn push_database(&mut self, database: Database)
        ensures
            final(self)@ == old(self)@.push(database@),
    {
        self.databases.push(database);
    }

    /// Holds the set to the rule that no two components share a name.
    pub fn validate(&self) -> (r: Result<(), ErrorKind>)
        ensures
            match r {
                Ok(()) => validate_spec(self@) == Ok::<(), ErrorKindView>(()),
                Err(e) => validate_spec(self@) == Err::<(), _>(e@),
            },
    {
        let ghost components = all_components(self@);
        let names = collect_names(&self.databases);
        assert(component_names(components).len() == components.len());
        assert(forall|k: int|
            0 <= k < names.len() ==> (#[trigger] names@[k])@ == components[k].name) by {
            assert forall|k: int| 0 <= k < names.len() implies (#[trigger] names@[k])@
                == components[k].name by {
                assert(crate::record::cells_view(names@)[k] == component_names(components)[k]);
            }
        }
        let mut j: usize = 0;
        while j < names.len()
            invariant
                j <= names.len(),
                names.len() == components.len(),
                components == all_components(self@),
                forall|k: int|
                    0 <= k < names.len() ==> (#[trigger] names@[k])@ == components[k].name,
                forall|k: int| 0 <= k < j ==> !#[trigger] repeats_name(components, k),
            decreases names.len() - j,
        {
            let mut i: usize = 0;
            while i < j
                invariant
                    i <= j < names.len(),
                    names.len() == components.len(),
                    components == all_components(self@),
                    forall|k: int|
                        0 <= k < names.len() ==> (#[trigger] names@[k])@ == components[k].name,
                    forall|k: int|
                        0 <= k < i ==> (#[trigger] components[k]).name != components[j as int].name,
                    forall|k: int| 0 <= k < j ==> !#[trigger] repeats_name(components, k),
                decreases j - i,
            {
                if crate::text::str_eq(names[i].as_str(), names[j].as_str()) {
                    proof {
                        assert(repeats_name(components, j as int));
                        lemma_first_repeat(components);
                    }
                    return Err(ErrorKind::DuplicateComponentName { name: names[j].clone() });
                }
                i += 1;
            }
            j += 1;
        }
        proof {
            lemma_first_repeat(components);
        }
        Ok(())
    }

    /// Makes one database of the set. Nothing is made unless the whole set
    /// keeps the rule that no two components share a name.
    pub fn merge(self) -> (r: Result<Database, ErrorKind>)
        ensures
            match r {
                Ok(database) => merge_spec(self@) == Ok::<_, ErrorKindView>(database@)
                    && names_differ(database@.components),
                Err(e) => merge_spec(self@) == Err::<DatabaseView, _>(e@),
            },
    {
        proof {
            lemma_merge(self@);
        }
        match self.validate() {
            Err(e) => {
                return Err(e);
            },
            Ok(()) => {},
        }
        let ghost all = self@;
        let ghost n = all.len();
        let mut pending = reversed(self.databases);
        let mut components: Vec<Component> = Vec::new();
        while pending.len() > 0
            invariant
                pending@.len() <= n,
                n == all.len(),
                forall|i: int|
                    0 <= i < pending@.len() ==> (#[trigger] pending@[i])@ == all[n - 1 - i],
                components_view(components@) == all_components(all.take(n - pending@.len())),
            decreases pending.len(),
        {
            let ghost k = n - pending@.len();
            let mut database = pending.pop().unwrap();
            assert(all.take(k + 1).drop_last() =~= all.take(k));
            components.append(&mut database.components);
        }
        assert(all.take(n as int) == all);
        Ok(Database { components })
    }
}

impl Default for DatabaseSet {
    fn default() -> (set: DatabaseSet)
        ensures
            set@ == Seq::<DatabaseView>::empty(),
    {
        DatabaseSet::new()
    }
}

} // verus!
