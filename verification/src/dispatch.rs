//! Dispatching commands by name, and the undo/redo history of the commands
//! a dispatcher executed.
use vstd::prelude::*;
use vstd::string::*;
use crate::commands::{Command, CommandError, CommandResult};
use crate::project::{Project, same_project};

verus! {

/// Default maximum undo depth.
pub const DEFAULT_MAX_UNDO: usize = 100;

/// Builds a command from its textual arguments. A frontend registers one
/// factory per command name; how the arguments are read is the factory's
/// own business.
pub trait CommandFactory {
    /// Whether building from the arguments `args` may give `r`. A factory
    /// that does not say holds nothing of what it builds.
    open spec fn creates(&self, args: Seq<char>, r: Result<CommandBox, CommandError>) -> bool {
        true
    }

    /// Build the command described by `args`.
    fn create(&self, args: &str) -> (r: Result<CommandBox, CommandError>)
        ensures
            self.creates(args@, r),
    ;
}

/// A command behind a box, as the undo history holds it.
pub struct CommandBox {
    pub command: Box<dyn Command>,
}

/// A command in the history, with a project state: on the undo stack, the
/// project as it was before the command ran; on the redo stack, the
/// project as it was before the command was undone.
pub struct HistoryEntry {
    pub command: CommandBox,
    pub project: Project,
}

/// A command factory behind a box, as a registry holds it.
pub struct FactoryBox {
    pub factory: Box<dyn CommandFactory>,
}

/// A registry entry: a factory and the name it is registered under.
pub struct Registration {
    pub name: String,
    pub factory: FactoryBox,
}

/// The message of the error for a name that no factory is registered under.
pub open spec fn unknown_command(name: Seq<char>) -> Seq<char> {
    "Unknown command: "@ + name
}

/// No two entries carry the same name.
pub open spec fn names_distinct(entries: Seq<Registration>) -> bool {
    forall|i: int, j: int|
        0 <= i < entries.len() && 0 <= j < entries.len() && i != j ==> #[trigger] entries[i].name@
            != #[trigger] entries[j].name@
}

/// Whether some entry carries the name `k`.
pub open spec fn has_name(entries: Seq<Registration>, k: Seq<char>) -> bool {
    exists|i: int| 0 <= i < entries.len() && #[trigger] entries[i].name@ == k
}

/// The factory of the entry that carries the name `k`.
pub open spec fn factory_of(entries: Seq<Registration>, k: Seq<char>) -> FactoryBox {
    entries[choose|i: int| 0 <= i < entries.len() && #[trigger] entries[i].name@ == k].factory
}

/// The map from names to factories that a list of distinct entries holds.
pub open spec fn entries_map(entries: Seq<Registration>) -> Map<Seq<char>, FactoryBox> {
    Map::new(|k: Seq<char>| has_name(entries, k), |k: Seq<char>| factory_of(entries, k))
}

proof fn lemma_factory_of_index(entries: Seq<Registration>, i: int)
    requires
        names_distinct(entries),
        0 <= i < entries.len(),
    ensures
        has_name(entries, entries[i].name@),
        factory_of(entries, entries[i].name@) == entries[i].factory,
{
    let k = entries[i].name@;
    assert(0 <= i < entries.len() && entries[i].name@ == k);
    let j = choose|i: int| 0 <= i < entries.len() && #[trigger] entries[i].name@ == k;
    assert(entries[j].name@ == k);
    assert(j == i);
}

/// Command factories keyed by command name; registering a name again
/// replaces its factory.
pub struct Registry {
    entries: Vec<Registration>,
}

impl View for Registry {
    type V = Map<Seq<char>, FactoryBox>;

    closed spec fn view(&self) -> Map<Seq<char>, FactoryBox> {
        entries_map(self.entries@)
    }
}

impl Registry {
    #[verifier::type_invariant]
    spec fn distinct(self) -> bool {
        names_distinct(self.entries@)
    }

    /// An empty registry.
    pub fn new() -> (r: Self)
        ensures
            r@ == Map::<Seq<char>, FactoryBox>::empty(),
    {
        let r = Registry { entries: Vec::new() };
        assert(r@ =~= Map::<Seq<char>, FactoryBox>::empty());
        r
    }

    fn position(&self, name: &str) -> (r: Option<usize>)
        ensures
            r matches Some(i) ==> i < self.entries@.len() && self.entries@[i as int].name@ == name@,
            r is None ==> !has_name(self.entries@, name@),
    {
        let key = String::from_str(name);
        let mut i: usize = 0;
        while i < self.entries.len()
            invariant
                key@ == name@,
                i <= self.entries@.len(),
                forall|j: int| 0 <= j < i ==> #[trigger] self.entries@[j].name@ != name@,
            decreases self.entries.len() - i,
        {
            if self.entries[i].name == key {
                return Some(i);
            }
            i = i + 1;
        }
        None
    }

    /// Register `factory` under `name`, replacing any factory registered
    /// under it before.
    pub fn insert(&mut self, name: &str, factory: FactoryBox)
        ensures
            final(self)@ == old(self)@.insert(name@, factory),
    {
        proof { use_type_invariant(&*self); }
        let key = String::from_str(name);
        let found = self.position(name);
        let mut entries: Vec<Registration> = Vec::new();
        std::mem::swap(&mut entries, &mut self.entries);
        let ghost before = entries@;
        match found {
            Some(i) => {
                entries.set(i, Registration { name: key, factory: factory });
            },
            None => {
                entries.push(Registration { name: key, factory: factory });
            },
        }
        proof {
            let after = entries@;
            assert(names_distinct(before));
            assert(after.len() >= before.len());
            assert forall|a: int, b: int|
                0 <= a < after.len() && 0 <= b < after.len() && a != b implies #[trigger] after[a].name@
                    != #[trigger] after[b].name@ by {
                if a < before.len() && b < before.len() {
                    assert(before[a].name@ != before[b].name@);
                    match found {
                        Some(i) => {
                            if a == i {
                                assert(after[a].name@ == before[a].name@);
                            }
                            if b == i {
                                assert(after[b].name@ == before[b].name@);
                            }
                        },
                        None => {},
                    }
                } else if a < before.len() {
                    assert(before[a].name@ != name@);
                } else {
                    assert(before[b].name@ != name@);
                }
            }
            assert forall|k: Seq<char>| #![trigger has_name(after, k)]
                has_name(after, k) == (has_name(before, k) || k == name@) by {
                if has_name(before, k) && k != name@ {
                    let j = choose|j: int| 0 <= j < before.len() && #[trigger] before[j].name@ == k;
                    assert(after[j].name@ == k);
                }
                if has_name(after, k) {
                    let j = choose|j: int| 0 <= j < after.len() && #[trigger] after[j].name@ == k;
                    if j < before.len() && k != name@ {
                        assert(before[j].name@ == k);
                    }
                }
                if k == name@ {
                    match found {
                        Some(i) => { assert(after[i as int].name@ == k); },
                        None => { assert(after[before.len() as int].name@ == k); },
                    }
                }
            }
            assert forall|k: Seq<char>| has_name(after, k) implies
                #[trigger] factory_of(after, k) == entries_map(before).insert(name@, factory)[k] by {
                let j = choose|j: int| 0 <= j < after.len() && #[trigger] after[j].name@ == k;
                lemma_factory_of_index(after, j);
                if k != name@ {
                    assert(before[j].name@ == k);
                    lemma_factory_of_index(before, j);
                } else {
                    match found {
                        Some(i) => { assert(j == i); },
                        None => { assert(j == before.len()); },
                    }
                }
            }
            assert(entries_map(after) =~= entries_map(before).insert(name@, factory));
        }
        self.entries = entries;
    }

    /// The factory registered under `name`, if any.
    pub fn get(&self, name: &str) -> (r: Option<&FactoryBox>)
        ensures
            r matches Some(f) ==> self@.contains_key(name@) && *f == self@[name@],
            r is None ==> !self@.contains_key(name@),
    {
        proof { use_type_invariant(self); }
        match self.position(name) {
            Some(i) => {
                proof { lemma_factory_of_index(self.entries@, i as int); }
                Some(&self.entries[i].factory)
            },
            None => None,
        }
    }
}

/// The undo stack after recording one more command under a depth limit:
/// the command goes on top, and the oldest is dropped when over the limit.
pub open spec fn pushed_bounded<C>(stack: Seq<C>, command: C, max: nat) -> Seq<C> {
    let pushed = stack.push(command);
    if pushed.len() > max {
        pushed.drop_first()
    } else {
        pushed
    }
}

/// The last `max` elements of `stack` (all of it when it is shorter).
pub open spec fn newest<C>(stack: Seq<C>, max: nat) -> Seq<C> {
    if stack.len() > max {
        stack.subrange(stack.len() - max, stack.len() as int)
    } else {
        stack
    }
}

/// The command dispatcher: a registry of command factories, and the undo
/// and redo stacks of what it executed. The undo stack never holds more
/// than `max_undo` commands; the oldest is dropped first.
pub struct Dispatcher {
    registry: Registry,
    undo_stack: Vec<HistoryEntry>,
    redo_stack: Vec<HistoryEntry>,
    max_undo: usize,
}

/// `after` is `before` once `command`, executed with `result` on the
/// project `before_p`, has been recorded: a command that modified the
/// project and can be undone goes on the undo stack with a copy of
/// `before_p`, and the redo stack is cleared; any other leaves the history
/// as it was.
pub open spec fn records(before: Dispatcher, after: Dispatcher, command: CommandBox, result: CommandResult, before_p: Project) -> bool {
    &&& after.registry_view() == before.registry_view()
    &&& after.max_view() == before.max_view()
    &&& after.undo_view().len() <= after.max_view()
    &&& if result.modified && result.undoable {
        &&& exists|entry: HistoryEntry| {
            &&& entry.command == command
            &&& same_project(entry.project, before_p)
            &&& after.undo_view() == #[trigger] pushed_bounded(before.undo_view(), entry, before.max_view())
        }
        &&& after.redo_view() == Seq::<HistoryEntry>::empty()
    } else {
        &&& after.undo_view() == before.undo_view()
        &&& after.redo_view() == before.redo_view()
    }
}

/// `command` ran on the project `before_p`, leaving `after_p`, and the
/// dispatcher went from `before` to `after`, with the result `r`: on
/// success the result carries whether the command modified the project and
/// whether it can be undone, and the command is recorded with it; on an
/// error the command failed with that error and the history is as it was.
pub open spec fn ran(
    command: CommandBox,
    before: Dispatcher,
    after: Dispatcher,
    before_p: Project,
    after_p: Project,
    r: Result<CommandResult, CommandError>,
) -> bool {
    match r {
        Ok(result) => {
            &&& command.command.runs(before_p, after_p, Ok(result.modified))
            &&& result.undoable == command.command.undoable()
            &&& records(before, after, command, result, before_p)
        },
        Err(e) => {
            &&& command.command.runs(before_p, after_p, Err(e))
            &&& same_history(before, after)
        },
    }
}

/// `after` and the project `after_p` are what undoing gives from `before`
/// and `before_p`, with the result `r`: the last command's entry leaves the
/// undo stack, the project goes back to the state kept in it, and the
/// command goes on the redo stack with the state it was undone from.
/// With nothing to undo, nothing changes and the result is `Ok(false)`.
pub open spec fn undone(before: Dispatcher, after: Dispatcher, before_p: Project, after_p: Project, r: Result<bool, CommandError>) -> bool {
    &&& after.registry_view() == before.registry_view()
    &&& after.max_view() == before.max_view()
    &&& after.undo_view().len() <= after.max_view()
    &&& if before.undo_view().len() > 0 {
        let last = before.undo_view().last();
        &&& r == Ok::<bool, CommandError>(true)
        &&& after_p == last.project
        &&& after.undo_view() == before.undo_view().drop_last()
        &&& after.redo_view() == before.redo_view().push(HistoryEntry { command: last.command, project: before_p })
    } else {
        &&& r == Ok::<bool, CommandError>(false)
        &&& after_p == before_p
        &&& after.undo_view() == before.undo_view()
        &&& after.redo_view() == before.redo_view()
    }
}

/// `after` and the project `after_p` are what redoing gives from `before`
/// and `before_p`, with the result `r`: the last undone command's entry
/// leaves the redo stack, the project goes back to the state it was undone
/// from, and the command goes back on the undo stack with the state it was
/// redone from. With nothing to redo, nothing changes and the result is
/// `Ok(false)`.
pub open spec fn redone(before: Dispatcher, after: Dispatcher, before_p: Project, after_p: Project, r: Result<bool, CommandError>) -> bool {
    &&& after.registry_view() == before.registry_view()
    &&& after.max_view() == before.max_view()
    &&& after.undo_view().len() <= after.max_view()
    &&& if before.redo_view().len() > 0 {
        let last = before.redo_view().last();
        &&& r == Ok::<bool, CommandError>(true)
        &&& after_p == last.project
        &&& after.redo_view() == before.redo_view().drop_last()
        &&& after.undo_view() == pushed_bounded(
            before.undo_view(),
            HistoryEntry { command: last.command, project: before_p },
            before.max_view(),
        )
    } else {
        &&& r == Ok::<bool, CommandError>(false)
        &&& after_p == before_p
        &&& after.undo_view() == before.undo_view()
        &&& after.redo_view() == before.redo_view()
    }
}

/// `after` has the registry and the history of `before`.
pub open spec fn same_history(before: Dispatcher, after: Dispatcher) -> bool {
    &&& after.registry_view() == before.registry_view()
    &&& after.max_view() == before.max_view()
    &&& after.undo_view().len() <= after.max_view()
    &&& after.undo_view() == before.undo_view()
    &&& after.redo_view() == before.redo_view()
}

impl Dispatcher {
    #[verifier::type_invariant]
    spec fn bounded(self) -> bool {
        self.undo_stack@.len() <= self.max_undo
    }

    /// The registered factories, by command name.
    pub closed spec fn registry_view(self) -> Map<Seq<char>, FactoryBox> {
        self.registry@
    }

    /// Commands that can be undone, oldest first, each with the project as
    /// it was before it ran.
    pub closed spec fn undo_view(self) -> Seq<HistoryEntry> {
        self.undo_stack@
    }

    /// Commands that were undone, in the order they were undone, each with
    /// the project as it was before it was undone.
    pub closed spec fn redo_view(self) -> Seq<HistoryEntry> {
        self.redo_stack@
    }

    /// Maximum undo depth.
    pub closed spec fn max_view(self) -> nat {
        self.max_undo as nat
    }

    /// A dispatcher with no factories, an empty history and the default depth.
    pub fn new() -> (r: Self)
        ensures
            r.registry_view() == Map::<Seq<char>, FactoryBox>::empty(),
            r.undo_view() == Seq::<HistoryEntry>::empty(),
            r.redo_view() == Seq::<HistoryEntry>::empty(),
            r.max_view() == DEFAULT_MAX_UNDO,
    {
        Dispatcher {
            registry: Registry::new(),
            undo_stack: Vec::new(),
            redo_stack: Vec::new(),
            max_undo: DEFAULT_MAX_UNDO,
        }
    }

    /// Register the factory of the command called `name`.
    pub fn register(&mut self, name: &str, factory: FactoryBox)
        ensures
            final(self).registry_view() == old(self).registry_view().insert(name@, factory),
            final(self).undo_view() == old(self).undo_view(),
            final(self).redo_view() == old(self).redo_view(),
            final(self).max_view() == old(self).max_view(),
    {
        proof { use_type_invariant(&*self); }
        let mut registry = Registry::new();
        std::mem::swap(&mut registry, &mut self.registry);
        registry.insert(name, factory);
        self.registry = registry;
    }

    /// Put an entry on top of the undo stack, dropping the oldest entry when
    /// the stack would exceed its limit.
    fn push_undo(&mut self, entry: HistoryEntry)
        ensures
            final(self).undo_view() == pushed_bounded(old(self).undo_view(), entry, old(self).max_view()),
            final(self).redo_view() == old(self).redo_view(),
            final(self).registry_view() == old(self).registry_view(),
            final(self).max_view() == old(self).max_view(),
    {
        proof { use_type_invariant(&*self); }
        let mut undo_stack: Vec<HistoryEntry> = Vec::new();
        std::mem::swap(&mut undo_stack, &mut self.undo_stack);
        let ghost before = undo_stack@;
        undo_stack.push(entry);
        if undo_stack.len() > self.max_undo {
            undo_stack.remove(0);
            assert(undo_stack@ =~= pushed_bounded(before, entry, self.max_undo as nat));
        }
        self.undo_stack = undo_stack;
    }

    /// Execute a command built beforehand, and record it: a command that
    /// modified the project and can be undone goes on the undo stack with a
    /// copy of the project as it was before, and the redo stack is cleared.
    pub fn execute(&mut self, command: CommandBox, project: &mut Project) -> (r: Result<CommandResult, CommandError>)
        ensures
            ran(command, *old(self), *final(self), *old(project), *final(project), r),
    {
        proof { use_type_invariant(&*self); }
        let undoable = command.command.is_undoable();
        let saved = if undoable { Some(project.snapshot()) } else { None };
        match command.command.execute(project) {
            Ok(modified) => {
                let result = CommandResult { modified, undoable };
                if modified && undoable {
                    if let Some(saved) = saved {
                        let entry = HistoryEntry { command, project: saved };
                        let ghost kept = entry;
                        self.redo_stack = Vec::new();
                        self.push_undo(entry);
                        assert(same_project(kept.project, *old(project)));
                        assert(self.undo_view() == pushed_bounded(old(self).undo_view(), kept, old(self).max_view()));
                    }
                }
                Ok(result)
            },
            Err(e) => Err(e),
        }
    }

    /// Build the command registered as `name` from `args`, execute it, and
    /// record it.
    pub fn dispatch(&mut self, name: &str, args: &str, project: &mut Project) -> (r: Result<CommandResult, CommandError>)
        ensures
            !old(self).registry_view().contains_key(name@) ==> (r matches Err(e) && e.message@ == unknown_command(name@))
                && *final(project) == *old(project) && same_history(*old(self), *final(self)),
            old(self).registry_view().contains_key(name@) ==> exists|built: Result<CommandBox, CommandError>| {
                &&& #[trigger] old(self).registry_view()[name@].factory.creates(args@, built)
                &&& match built {
                    Ok(command) => ran(command, *old(self), *final(self), *old(project), *final(project), r),
                    Err(e) => r == Err::<CommandResult, CommandError>(e) && *final(project) == *old(project)
                        && same_history(*old(self), *final(self)),
                }
            },
    {
        proof { use_type_invariant(&*self); }
        let command = match self.registry.get(name) {
            Some(entry) => match entry.factory.create(args) {
                Ok(command) => command,
                Err(e) => return Err(e),
            },
            None => {
                let mut message = String::from_str("Unknown command: ");
                message.append(name);
                return Err(CommandError { message });
            },
        };
        self.execute(command, project)
    }

    /// Undo the last command: the project goes back to the state it had
    /// before the command ran, and the command moves to the redo stack with
    /// the state it was undone from. Returns whether there was one.
    pub fn undo(&mut self, project: &mut Project) -> (r: Result<bool, CommandError>)
        ensures
            undone(*old(self), *final(self), *old(project), *final(project), r),
    {
        proof { use_type_invariant(&*self); }
        let mut undo_stack: Vec<HistoryEntry> = Vec::new();
        std::mem::swap(&mut undo_stack, &mut self.undo_stack);
        let popped = undo_stack.pop();
        self.undo_stack = undo_stack;
        match popped {
            Some(entry) => {
                let HistoryEntry { command, project: mut state } = entry;
                std::mem::swap(project, &mut state);
                let mut redo_stack: Vec<HistoryEntry> = Vec::new();
                std::mem::swap(&mut redo_stack, &mut self.redo_stack);
                redo_stack.push(HistoryEntry { command, project: state });
                self.redo_stack = redo_stack;
                Ok(true)
            },
            None => Ok(false),
        }
    }

    /// Redo the last undone command: the project goes back to the state it
    /// was undone from, and the command returns to the undo stack with the
    /// state it was redone from. Returns whether there was one.
    pub fn redo(&mut self, project: &mut Project) -> (r: Result<bool, CommandError>)
        ensures
            redone(*old(self), *final(self), *old(project), *final(project), r),
    {
        proof { use_type_invariant(&*self); }
        let mut redo_stack: Vec<HistoryEntry> = Vec::new();
        std::mem::swap(&mut redo_stack, &mut self.redo_stack);
        let popped = redo_stack.pop();
        self.redo_stack = redo_stack;
        match popped {
            Some(entry) => {
                let HistoryEntry { command, project: mut state } = entry;
                std::mem::swap(project, &mut state);
                self.push_undo(HistoryEntry { command, project: state });
                Ok(true)
            },
            None => Ok(false),
        }
    }

    /// Whether there is a command to undo.
    pub fn can_undo(&self) -> (r: bool)
        ensures
            r == (self.undo_view().len() > 0),
    {
        !self.undo_stack.is_empty()
    }

    /// Whether there is a command to redo.
    pub fn can_redo(&self) -> (r: bool)
        ensures
            r == (self.redo_view().len() > 0),
    {
        !self.redo_stack.is_empty()
    }

    /// Set the maximum undo depth, dropping the oldest commands beyond it.
    pub fn set_max_undo(&mut self, max: usize)
        ensures
            final(self).max_view() == max,
            final(self).undo_view() == newest(old(self).undo_view(), max as nat),
            final(self).redo_view() == old(self).redo_view(),
            final(self).registry_view() == old(self).registry_view(),
            final(self).undo_view().len() <= final(self).max_view(),
    {
        let mut undo_stack: Vec<HistoryEntry> = Vec::new();
        std::mem::swap(&mut undo_stack, &mut self.undo_stack);
        let ghost original = undo_stack@;
        while undo_stack.len() > max
            invariant
                undo_stack@.len() <= original.len(),
                undo_stack@ == original.subrange(original.len() - undo_stack@.len(), original.len() as int),
                original.len() > max ==> undo_stack@.len() >= max,
                original.len() <= max ==> undo_stack@.len() == original.len(),
            decreases undo_stack@.len(),
        {
            let ghost before = undo_stack@;
            undo_stack.remove(0);
            assert(undo_stack@ =~= original.subrange(original.len() - undo_stack@.len(), original.len() as int)) by {
                assert(before.remove(0) =~= before.subrange(1, before.len() as int));
            }
        }
        assert(original.len() <= max ==> original.subrange(0, original.len() as int) =~= original);
        self.max_undo = max;
        self.undo_stack = undo_stack;
    }
}

/// A command that modified the project and can be undone is, once
/// recorded, the next to be undone, unless the dispatcher keeps no history
/// at all (a maximum depth of zero).
pub proof fn lemma_recorded_can_undo(before: Dispatcher, after: Dispatcher, command: CommandBox, result: CommandResult, before_p: Project)
    requires
        records(before, after, command, result, before_p),
        result.modified && result.undoable,
        before.max_view() > 0,
    ensures
        after.undo_view().len() > 0,
        after.undo_view().last().command == command,
        same_project(after.undo_view().last().project, before_p),
{
}

/// A command that can be undone and that an execution reports as having
/// modified the project is, once executed, the next to be undone, unless
/// the dispatcher keeps no history at all (a maximum depth of zero).
pub proof fn lemma_executed_change_can_undo(
    before: Dispatcher,
    after: Dispatcher,
    before_p: Project,
    after_p: Project,
    command: CommandBox,
    result: CommandResult,
)
    requires
        ran(command, before, after, before_p, after_p, Ok(result)),
        result.modified,
        command.command.undoable(),
        before.max_view() > 0,
    ensures
        result.undoable,
        after.undo_view().len() > 0,
        after.undo_view().last().command == command,
{
    lemma_recorded_can_undo(before, after, command, result, before_p);
}

/// Undoing right after executing a command that modified the project and
/// can be undone gives back the project as it was before the command (field
/// for field, with the same patterns, channels and tracks), leaves exactly
/// that command to redo, from the state it produced, and, while the undo
/// stack was below its limit, gives back the undo stack from before.
pub proof fn lemma_undo_restores(
    d0: Dispatcher,
    d1: Dispatcher,
    d2: Dispatcher,
    p0: Project,
    p1: Project,
    p2: Project,
    command: CommandBox,
    result: CommandResult,
    r: Result<bool, CommandError>,
)
    requires
        ran(command, d0, d1, p0, p1, Ok(result)),
        result.modified && result.undoable,
        d0.max_view() > 0,
        undone(d1, d2, p1, p2, r),
    ensures
        r == Ok::<bool, CommandError>(true),
        same_project(p2, p0),
        d2.redo_view() == seq![HistoryEntry { command, project: p1 }],
        d0.undo_view().len() < d0.max_view() ==> d2.undo_view() == d0.undo_view(),
{
    let entry = choose|entry: HistoryEntry| {
        &&& entry.command == command
        &&& same_project(entry.project, p0)
        &&& d1.undo_view() == #[trigger] pushed_bounded(d0.undo_view(), entry, d0.max_view())
    };
    assert(d1.undo_view().last() == entry);
    assert(d2.redo_view() =~= seq![HistoryEntry { command, project: p1 }]);
    if d0.undo_view().len() < d0.max_view() {
        assert(d1.undo_view() == d0.undo_view().push(entry));
        assert(d1.undo_view().drop_last() =~= d0.undo_view());
    }
}

/// Redoing right after an undo gives back the project the undo started
/// from, exactly, and both stacks as they were before the undo.
pub proof fn lemma_redo_undoes_undo(
    d1: Dispatcher,
    d2: Dispatcher,
    d3: Dispatcher,
    p1: Project,
    p2: Project,
    p3: Project,
    undo_result: Result<bool, CommandError>,
    r: Result<bool, CommandError>,
)
    requires
        d1.undo_view().len() <= d1.max_view(),
        d1.undo_view().len() > 0,
        undone(d1, d2, p1, p2, undo_result),
        redone(d2, d3, p2, p3, r),
    ensures
        r == Ok::<bool, CommandError>(true),
        p3 == p1,
        d3.undo_view() == d1.undo_view(),
        d3.redo_view() == d1.redo_view(),
{
    let last = d1.undo_view().last();
    assert(d2.redo_view().last() == (HistoryEntry { command: last.command, project: p1 }));
    assert(d2.redo_view().drop_last() =~= d1.redo_view());
    assert(HistoryEntry { command: last.command, project: last.project } == last);
    assert(d1.undo_view().drop_last().push(last) =~= d1.undo_view());
}

impl Default for Dispatcher {
    fn default() -> (r: Self)
        ensures
            r.registry_view() == Map::<Seq<char>, FactoryBox>::empty(),
            r.undo_view() == Seq::<HistoryEntry>::empty(),
            r.redo_view() == Seq::<HistoryEntry>::empty(),
            r.max_view() == DEFAULT_MAX_UNDO,
    {
        Self::new()
    }
}

/// A command executor that keeps no history.
pub struct SimpleExecutor {
    registry: Registry,
}

impl SimpleExecutor {
    /// The registered factories, by command name.
    pub closed spec fn registry_view(self) -> Map<Seq<char>, FactoryBox> {
        self.registry@
    }

    /// An executor with no factories.
    pub fn new() -> (r: Self)
        ensures
            r.registry_view() == Map::<Seq<char>, FactoryBox>::empty(),
    {
        SimpleExecutor { registry: Registry::new() }
    }

    /// Register the factory of the command called `name`.
    pub fn register(&mut self, name: &str, factory: FactoryBox)
        ensures
            final(self).registry_view() == old(self).registry_view().insert(name@, factory),
    {
        self.registry.insert(name, factory);
    }

    /// Build the command registered as `name` from `args` and execute it;
    /// `Ok(true)` when it modified the project.
    pub fn execute(&self, name: &str, args: &str, project: &mut Project) -> (r: Result<bool, CommandError>)
        ensures
            !self.registry_view().contains_key(name@) ==> (r matches Err(e) && e.message@ == unknown_command(name@))
                && *final(project) == *old(project),
            self.registry_view().contains_key(name@) ==> exists|built: Result<CommandBox, CommandError>| {
                &&& #[trigger] self.registry_view()[name@].factory.creates(args@, built)
                &&& match built {
                    Ok(command) => command.command.runs(*old(project), *final(project), r),
                    Err(e) => r == Err::<bool, CommandError>(e) && *final(project) == *old(project),
                }
            },
    {
        match self.registry.get(name) {
            Some(entry) => match entry.factory.create(args) {
                Ok(command) => command.command.execute(project),
                Err(e) => Err(e),
            },
            None => {
                let mut message = String::from_str("Unknown command: ");
                message.append(name);
                Err(CommandError { message })
            },
        }
    }
}

impl Default for SimpleExecutor {
    fn default() -> (r: Self)
        ensures
            r.registry_view() == Map::<Seq<char>, FactoryBox>::empty(),
    {
        Self::new()
    }
}

} // verus!
