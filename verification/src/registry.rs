//! The registry values that make an application the handler of a URI scheme,
//! and a model of the registry that receives them.
//!
//! A scheme `s` is registered by two values in the hive of the current user:
//!
//! | key                                     | value name     | data                |
//! |-----------------------------------------|----------------|---------------------|
//! | `Software\Classes\s`                    | `URL Protocol` | the app's name      |
//! | `Software\Classes\s\shell\open\command` | (default)      | `<executable> "%1"` |
//!
//! When a URI of that scheme is opened, the shell runs the command with the
//! URI in place of `%1`. Nothing is ever written for all users: that would
//! need elevated rights.

use vstd::prelude::*;
use vstd::string::StringExecFns;
use crate::app::{App, AppView};

verus! {

/// The part of the registry that a key lies in. There is one hive to name:
/// a write for every user of the machine would need elevated rights, and so
/// it cannot even be described.
#[derive(Debug, Clone, Copy, PartialEq, Eq, Hash)]
pub enum Hive {
    /// What holds for the current user only (`HKEY_CURRENT_USER`). Writing
    /// here needs no special rights.
    CurrentUser,
}

/// One value to be written to the registry. The key is created if it does
/// not exist; data already held under the same key and name is replaced.
#[derive(Debug, PartialEq, Eq)]
pub struct RegistryWrite {
    /// The hive that the key lies in.
    pub hive: Hive,
    /// Path of the key from the root of the hive.
    pub key: String,
    /// Name of the value inside the key; empty for the key's default value.
    pub name: String,
    /// The text to store.
    pub data: String,
}

/// A [`RegistryWrite`] as mathematical text.
pub struct RegistryWriteView {
    pub hive: Hive,
    pub key: Seq<char>,
    pub name: Seq<char>,
    pub data: Seq<char>,
}

impl View for RegistryWrite {
    type V = RegistryWriteView;

    open spec fn view(&self) -> RegistryWriteView {
        RegistryWriteView { hive: self.hive, key: self.key@, name: self.name@, data: self.data@ }
    }
}

/// The key under which a scheme is registered.
pub open spec fn class_key(scheme: Seq<char>) -> Seq<char> {
    "Software\\Classes\\"@ + scheme
}

/// The key that holds the command run for a scheme.
pub open spec fn command_key(scheme: Seq<char>) -> Seq<char> {
    class_key(scheme) + "\\shell\\open\\command"@
}

/// The command line stored for a launch command: the command followed by
/// the quoted placeholder that the shell replaces by the URI.
pub open spec fn command_line(executable: Seq<char>) -> Seq<char> {
    executable + " \"%1\""@
}

/// The value that marks a scheme's key as a URL protocol.
pub open spec fn protocol_marker(app: AppView, scheme: Seq<char>) -> RegistryWriteView {
    RegistryWriteView {
        hive: Hive::CurrentUser,
        key: class_key(scheme),
        name: "URL Protocol"@,
        data: app.name,
    }
}

/// The default value of a scheme's command key: the command line of `app`.
pub open spec fn open_command(app: AppView, scheme: Seq<char>) -> RegistryWriteView {
    RegistryWriteView {
        hive: Hive::CurrentUser,
        key: command_key(scheme),
        name: ""@,
        data: command_line(app.executable),
    }
}

/// Every write that registers `app` for `schemes`, in the order in which
/// they are made: for each scheme in turn, its marker and then its command.
/// A scheme that occurs twice is written twice.
pub open spec fn registration_writes(app: AppView, schemes: Seq<Seq<char>>) -> Seq<
    RegistryWriteView,
> {
    Seq::new(
        2 * schemes.len(),
        |k: int|
            if k % 2 == 0 {
                protocol_marker(app, schemes[k / 2])
            } else {
                open_command(app, schemes[k / 2])
            },
    )
}

impl RegistryWrite {
    /// The write that marks the key of `scheme` as a URL protocol handled by
    /// `app`.
    pub fn protocol_marker(app: &App, scheme: &str) -> (write: RegistryWrite)
        ensures
            write@ == protocol_marker(app@, scheme@),
    {
        let mut key = "Software\\Classes\\".to_owned();
        key.append(scheme);
        RegistryWrite {
            hive: Hive::CurrentUser,
            key,
            name: "URL Protocol".to_owned(),
            data: app.name.clone(),
        }
    }

    /// The write that stores the command line of `app` as the command run
    /// for `scheme`.
    pub fn open_command(app: &App, scheme: &str) -> (write: RegistryWrite)
        ensures
            write@ == open_command(app@, scheme@),
    {
        let mut key = "Software\\Classes\\".to_owned();
        key.append(scheme);
        key.append("\\shell\\open\\command");
        let mut data = app.executable.clone();
        data.append(" \"%1\"");
        RegistryWrite { hive: Hive::CurrentUser, key, name: "".to_owned(), data }
    }
}

/// A model of the registry as far as text values go: the data held in each
/// hive under each key and value name. What the laws below say of "the
/// registry" they say of this model, in which a write replaces what its place
/// held and leaves every other place alone.
pub type Registry = Map<(Hive, Seq<char>, Seq<char>), Seq<char>>;

/// Where a write puts its data: the hive, the key and the name of the value.
pub open spec fn slot(write: RegistryWriteView) -> (Hive, Seq<char>, Seq<char>) {
    (write.hive, write.key, write.name)
}

/// The registry after one write: the key and name hold the new data,
/// whatever they held before; everything else is as it was.
pub open spec fn written(registry: Registry, write: RegistryWriteView) -> Registry {
    registry.insert(slot(write), write.data)
}

/// The registry after a series of writes, made in order.
pub open spec fn written_all(registry: Registry, writes: Seq<RegistryWriteView>) -> Registry
    decreases writes.len(),
{
    if writes.len() == 0 {
        registry
    } else {
        written(written_all(registry, writes.drop_last()), writes.last())
    }
}

/// Whether the registry holds the registration of `scheme` for `app`: the
/// scheme's key is marked as a URL protocol with the application's name, and
/// its command is the application's command line.
pub open spec fn registered(registry: Registry, app: AppView, scheme: Seq<char>) -> bool {
    &&& registry.contains_key(slot(protocol_marker(app, scheme)))
    &&& registry[slot(protocol_marker(app, scheme))] == app.name
    &&& registry.contains_key(slot(open_command(app, scheme)))
    &&& registry[slot(open_command(app, scheme))] == command_line(app.executable)
}

/// Writes that never put different data in one place.
pub open spec fn consistent(writes: Seq<RegistryWriteView>) -> bool {
    forall|i: int, j: int|
        0 <= i < writes.len() && 0 <= j < writes.len() && slot(#[trigger] writes[i]) == slot(
            #[trigger] writes[j],
        ) ==> writes[i].data == writes[j].data
}

/// The first writes of consistent writes are consistent.
pub proof fn lemma_consistent_prefix(writes: Seq<RegistryWriteView>, n: int)
    requires
        consistent(writes),
        0 <= n <= writes.len(),
    ensures
        consistent(writes.take(n)),
{
    let first = writes.take(n);
    assert forall|i: int, j: int|
        0 <= i < first.len() && 0 <= j < first.len() && slot(#[trigger] first[i]) == slot(
            #[trigger] first[j],
        ) implies first[i].data == first[j].data by {
        assert(first[i] == writes[i]);
        assert(first[j] == writes[j]);
    }
}

/// After consistent writes, the registry holds the data of each of them.
pub proof fn lemma_written_all_holds(
    registry: Registry,
    writes: Seq<RegistryWriteView>,
    i: int,
)
    requires
        consistent(writes),
        0 <= i < writes.len(),
    ensures
        written_all(registry, writes).contains_key(slot(writes[i])),
        written_all(registry, writes)[slot(writes[i])] == writes[i].data,
    decreases writes.len(),
{
    if slot(writes.last()) != slot(writes[i]) {
        let before = writes.drop_last();
        assert(before =~= writes.take(writes.len() - 1));
        lemma_consistent_prefix(writes, writes.len() - 1);
        lemma_written_all_holds(registry, before, i);
        assert(before[i] == writes[i]);
    }
}

/// Writes leave alone every place that none of them names.
pub proof fn lemma_written_all_keeps(
    registry: Registry,
    writes: Seq<RegistryWriteView>,
    place: (Hive, Seq<char>, Seq<char>),
)
    requires
        forall|i: int| 0 <= i < writes.len() ==> slot(#[trigger] writes[i]) != place,
    ensures
        written_all(registry, writes).contains_key(place) == registry.contains_key(place),
        written_all(registry, writes)[place] == registry[place],
    decreases writes.len(),
{
    if writes.len() > 0 {
        let before = writes.drop_last();
        assert forall|i: int| 0 <= i < before.len() implies slot(#[trigger] before[i])
            != place by {
            assert(before[i] == writes[i]);
        }
        lemma_written_all_keeps(registry, before, place);
        assert(slot(writes[writes.len() - 1]) != place);
    }
}

/// Making consistent writes a second time changes nothing.
pub proof fn lemma_rewriting_changes_nothing(registry: Registry, writes: Seq<RegistryWriteView>)
    requires
        consistent(writes),
    ensures
        written_all(written_all(registry, writes), writes) == written_all(registry, writes),
{
    let once = written_all(registry, writes);
    let twice = written_all(once, writes);
    assert forall|place: (Hive, Seq<char>, Seq<char>)|
        #[trigger] twice.dom().contains(place) == once.dom().contains(place) && (
        once.dom().contains(place) ==> twice[place] == once[place]) by {
        if exists|i: int| 0 <= i < writes.len() && slot(#[trigger] writes[i]) == place {
            let i = choose|i: int| 0 <= i < writes.len() && slot(#[trigger] writes[i]) == place;
            lemma_written_all_holds(registry, writes, i);
            lemma_written_all_holds(once, writes, i);
        } else {
            lemma_written_all_keeps(once, writes, place);
        }
    }
    assert(twice =~= once);
}

/// Registering for two lists of schemes, one after the other, makes the
/// writes for the first list and then the writes for the second: each scheme
/// is handled by itself, also one that occurs again.
pub proof fn lemma_registration_of_joined(
    app: AppView,
    first: Seq<Seq<char>>,
    second: Seq<Seq<char>>,
)
    ensures
        registration_writes(app, first + second) == registration_writes(app, first)
            + registration_writes(app, second),
{
    let joined = registration_writes(app, first + second);
    let one = registration_writes(app, first);
    let two = registration_writes(app, second);
    assert(joined.len() == (one + two).len());
    assert forall|k: int| 0 <= k < joined.len() implies joined[k] == (one + two)[k] by {
        if k < one.len() {
            assert((first + second)[k / 2] == first[k / 2]);
        } else {
            let r = k - one.len();
            assert(k / 2 == first.len() + r / 2);
            assert(k % 2 == r % 2);
            assert((first + second)[k / 2] == second[r / 2]);
            assert((one + two)[k] == two[r]);
        }
    }
    assert(joined =~= one + two);
}

/// Registering stays with the classes of the current user: every write
/// goes to a key below `Software\Classes` in that user's hive, whatever the
/// schemes are named.
pub proof fn lemma_registration_is_for_current_user(
    app: AppView,
    schemes: Seq<Seq<char>>,
    k: int,
)
    requires
        0 <= k < registration_writes(app, schemes).len(),
    ensures
        "Software\\Classes\\"@.is_prefix_of(registration_writes(app, schemes)[k].key),
{
    let root = "Software\\Classes\\"@;
    let key = registration_writes(app, schemes)[k].key;
    assert(key.subrange(0, root.len() as int) =~= root);
}

/// The writes that register an application never put different data in one
/// place: a value named `URL Protocol` always holds the application's name,
/// a default value always its command line.
pub proof fn lemma_registration_is_consistent(app: AppView, schemes: Seq<Seq<char>>)
    ensures
        consistent(registration_writes(app, schemes)),
{
    reveal_strlit("URL Protocol");
    reveal_strlit("");
    assert("URL Protocol"@.len() != ""@.len());
}

/// Installing twice leaves the registry as installing once does: whatever
/// the registry held before, making all the writes for an application and
/// its schemes a second time changes nothing.
pub proof fn lemma_install_is_idempotent(
    app: AppView,
    schemes: Seq<Seq<char>>,
    registry: Registry,
)
    ensures
        written_all(
            written_all(registry, registration_writes(app, schemes)),
            registration_writes(app, schemes),
        ) == written_all(registry, registration_writes(app, schemes)),
{
    lemma_registration_is_consistent(app, schemes);
    lemma_rewriting_changes_nothing(registry, registration_writes(app, schemes));
}

/// As soon as both writes of a scheme are made, the scheme is registered,
/// and it stays so while later writes of the same installation are made.
pub proof fn lemma_written_scheme_is_registered(
    app: AppView,
    schemes: Seq<Seq<char>>,
    registry: Registry,
    completed: int,
    i: int,
)
    requires
        0 <= i,
        2 * i + 2 <= completed <= 2 * schemes.len(),
    ensures
        registered(
            written_all(registry, registration_writes(app, schemes).take(completed)),
            app,
            schemes[i],
        ),
{
    let plan = registration_writes(app, schemes);
    let made = plan.take(completed);
    lemma_registration_is_consistent(app, schemes);
    lemma_consistent_prefix(plan, completed);
    lemma_written_all_holds(registry, made, 2 * i);
    lemma_written_all_holds(registry, made, 2 * i + 1);
    assert(made[2 * i] == protocol_marker(app, schemes[i]));
    assert(made[2 * i + 1] == open_command(app, schemes[i]));
}

/// Once every write of an installation is made, each of its schemes is
/// registered: the command stored for it is the application's launch
/// command, a space, and the quoted placeholder `"%1"` that marks where the
/// URI goes.
pub proof fn lemma_installed_scheme_is_registered(
    app: AppView,
    schemes: Seq<Seq<char>>,
    registry: Registry,
    i: int,
)
    requires
        0 <= i < schemes.len(),
    ensures
        registered(written_all(registry, registration_writes(app, schemes)), app, schemes[i]),
        written_all(registry, registration_writes(app, schemes))[(
            Hive::CurrentUser,
            command_key(schemes[i]),
            Seq::empty(),
        )] == app.executable + seq![' ', '"', '%', '1', '"'],
{
    let plan = registration_writes(app, schemes);
    let all: int = (2 * schemes.len()) as int;
    assert(plan.take(all) =~= plan);
    lemma_written_scheme_is_registered(app, schemes, registry, all, i);
    reveal_strlit("");
    reveal_strlit(" \"%1\"");
    assert(""@ =~= Seq::<char>::empty());
    assert(" \"%1\""@ =~= seq![' ', '"', '%', '1', '"']);
}

} // verus!
