//! What the control plane remembers for Signal clients: prompt patterns, and the
//! prompt state under which each lease of the input gate was given out.
use std::collections::HashMap;
use vstd::prelude::*;
use vstd::string::*;
use crate::signal::{Lease, Pattern, PromptPattern, PromptPatternEntry, PromptState};
use crate::terminal::TerminalInputGateLease;
use crate::text::{
    decimal, decimal_is_a_numeral, decimal_is_injective, decimal_text, is_digit, joined,
    numeral_value,
};

verus! {

/// Whether an entry has an identifier.
pub open spec fn is_listed(entries: Seq<PromptPatternEntry>, identifier: Seq<char>) -> bool {
    exists|at: int|
        0 <= at < entries.len() && (#[trigger] entries[at]).pattern_identifier@ == identifier
}

/// The pattern that is listed under an identifier.
pub open spec fn listed_pattern(
    entries: Seq<PromptPatternEntry>,
    identifier: Seq<char>,
) -> Pattern {
    let at = choose|at: int|
        0 <= at < entries.len() && (#[trigger] entries[at]).pattern_identifier@ == identifier;
    entries[at].pattern@
}

/// The patterns of entries, by identifier.
pub open spec fn listed(entries: Seq<PromptPatternEntry>) -> Map<Seq<char>, Pattern> {
    Map::new(
        |identifier: Seq<char>| is_listed(entries, identifier),
        |identifier: Seq<char>| listed_pattern(entries, identifier),
    )
}

/// Whether no two entries have the same identifier.
pub open spec fn identifiers_differ(entries: Seq<PromptPatternEntry>) -> bool {
    forall|i: int, j: int|
        0 <= i < j < entries.len() ==> (#[trigger] entries[i]).pattern_identifier@ != (
        #[trigger] entries[j]).pattern_identifier@
}

/// Copies a pattern.
pub fn copied_pattern(pattern: &PromptPattern) -> (copy: PromptPattern)
    ensures
        copy@ == pattern@,
{
    match pattern {
        PromptPattern::LiteralSuffix(bytes) => {
            let copy = bytes.clone();
            assert(copy@ =~= bytes@);
            PromptPattern::LiteralSuffix(copy)
        },
        PromptPattern::RegexSuffix(bytes) => {
            let copy = bytes.clone();
            assert(copy@ =~= bytes@);
            PromptPattern::RegexSuffix(copy)
        },
    }
}

/// Prompt patterns by identifier.
#[derive(Debug)]
pub struct PromptPatterns {
    entries: Vec<PromptPatternEntry>,
}

impl View for PromptPatterns {
    type V = Map<Seq<char>, Pattern>;

    closed spec fn view(&self) -> Map<Seq<char>, Pattern> {
        listed(self.entries@)
    }
}

impl PromptPatterns {
    #[verifier::type_invariant]
    spec fn identifiers_differ(&self) -> bool {
        identifiers_differ(self.entries@)
    }

    pub fn new() -> (patterns: Self)
        ensures
            patterns@ == Map::<Seq<char>, Pattern>::empty(),
    {
        let patterns = PromptPatterns { entries: Vec::new() };
        assert(patterns@ =~= Map::<Seq<char>, Pattern>::empty());
        patterns
    }

    /// Where an identifier is listed.
    fn position(&self, identifier: &String) -> (position: Option<usize>)
        ensures
            match position {
                Some(at) => at < self.entries@.len() && self.entries@[at as int].pattern_identifier@
                    == identifier@,
                None => !is_listed(self.entries@, identifier@),
            },
    {
        let mut at: usize = 0;
        while at < self.entries.len()
            invariant
                at <= self.entries@.len(),
                forall|before: int|
                    0 <= before < at ==> (#[trigger] self.entries@[before]).pattern_identifier@
                        != identifier@,
            decreases self.entries@.len() - at,
        {
            if self.entries[at].pattern_identifier == *identifier {
                return Some(at);
            }
            at = at + 1;
        }
        None
    }

    /// Puts a pattern under an identifier, in place of what is there.
    pub fn insert(&mut self, identifier: String, pattern: PromptPattern)
        ensures
            final(self)@ == old(self)@.insert(identifier@, pattern@),
    {
        self.remove(&identifier);
        proof {
            use_type_invariant(&*self);
        }
        let ghost before = self.entries@;
        let ghost name = identifier@;
        let ghost model = pattern@;
        let mut entries = Vec::new();
        std::mem::swap(&mut entries, &mut self.entries);
        entries.push(PromptPatternEntry { pattern_identifier: identifier, pattern });
        proof {
            assert(listed(before) =~= old(self)@.remove(name));
            assert(!listed(before).contains_key(name));
            entry_is_added(before, entries@.last());
            assert(entries@ =~= before.push(entries@.last()));
            assert(listed(before).insert(name, model) =~= old(self)@.insert(name, model));
        }
        self.entries = entries;
    }

    /// Takes away what is under an identifier.
    pub fn remove(&mut self, identifier: &String)
        ensures
            final(self)@ == old(self)@.remove(identifier@),
    {
        proof {
            use_type_invariant(&*self);
        }
        match self.position(identifier) {
            Some(at) => {
                let ghost before = self.entries@;
                let mut entries = Vec::new();
                std::mem::swap(&mut entries, &mut self.entries);
                let _ = entries.remove(at);
                proof {
                    entry_is_removed(before, at as int);
                    assert(entries@ =~= before.remove(at as int));
                }
                self.entries = entries;
            },
            None => {
                assert(self@ =~= old(self)@.remove(identifier@));
            },
        }
    }

    /// The pattern under an identifier.
    pub fn get(&self, identifier: &String) -> (pattern: Option<PromptPattern>)
        ensures
            match pattern {
                Some(found) => self@.contains_key(identifier@) && found@ == self@[identifier@],
                None => !self@.contains_key(identifier@),
            },
    {
        proof {
            use_type_invariant(&*self);
        }
        match self.position(identifier) {
            Some(at) => {
                proof {
                    entry_is_listed(self.entries@, at as int);
                }
                Some(copied_pattern(&self.entries[at].pattern))
            },
            None => None,
        }
    }

    /// All patterns, each once.
    pub fn entries(&self) -> (entries: Vec<PromptPatternEntry>)
        ensures
            listed(entries@) == self@,
            identifiers_differ(entries@),
    {
        proof {
            use_type_invariant(&*self);
        }
        let mut entries: Vec<PromptPatternEntry> = Vec::new();
        let mut at: usize = 0;
        while at < self.entries.len()
            invariant
                at <= self.entries@.len(),
                entries@.len() == at,
                forall|i: int|
                    0 <= i < at ==> (#[trigger] entries@[i]).pattern_identifier@
                        == self.entries@[i].pattern_identifier@ && entries@[i].pattern@
                        == self.entries@[i].pattern@,
            decreases self.entries@.len() - at,
        {
            entries.push(
                PromptPatternEntry {
                    pattern_identifier: self.entries[at].pattern_identifier.clone(),
                    pattern: copied_pattern(&self.entries[at].pattern),
                },
            );
            at = at + 1;
        }
        proof {
            same_entries_list_the_same(entries@, self.entries@);
        }
        entries
    }
}

proof fn entry_is_listed(entries: Seq<PromptPatternEntry>, at: int)
    requires
        identifiers_differ(entries),
        0 <= at < entries.len(),
    ensures
        is_listed(entries, entries[at].pattern_identifier@),
        listed_pattern(entries, entries[at].pattern_identifier@) == entries[at].pattern@,
{
    let identifier = entries[at].pattern_identifier@;
    let chosen = choose|chosen: int|
        0 <= chosen < entries.len() && (#[trigger] entries[chosen]).pattern_identifier@
            == identifier;
    assert(chosen == at);
}

proof fn entry_is_added(entries: Seq<PromptPatternEntry>, entry: PromptPatternEntry)
    requires
        identifiers_differ(entries),
        !is_listed(entries, entry.pattern_identifier@),
    ensures
        identifiers_differ(entries.push(entry)),
        listed(entries.push(entry)) == listed(entries).insert(
            entry.pattern_identifier@,
            entry.pattern@,
        ),
{
    let longer = entries.push(entry);
    assert forall|i: int, j: int| 0 <= i < j < longer.len() implies (
    #[trigger] longer[i]).pattern_identifier@ != (#[trigger] longer[j]).pattern_identifier@ by {
        assert(longer[i] == entries[i]);
        if j < entries.len() {
            assert(longer[j] == entries[j]);
        }
    }
    entry_is_listed(longer, entries.len() as int);
    assert forall|identifier: Seq<char>| #[trigger] is_listed(longer, identifier) <==> is_listed(
        entries,
        identifier,
    ) || identifier == entry.pattern_identifier@ by {
        if is_listed(entries, identifier) {
            let at = choose|at: int|
                0 <= at < entries.len() && (#[trigger] entries[at]).pattern_identifier@
                    == identifier;
            assert(longer[at] == entries[at]);
        }
        if is_listed(longer, identifier) && identifier != entry.pattern_identifier@ {
            let at = choose|at: int|
                0 <= at < longer.len() && (#[trigger] longer[at]).pattern_identifier@ == identifier;
            assert(longer[at] == entries[at]);
        }
    }
    assert forall|identifier: Seq<char>| is_listed(entries, identifier) implies listed_pattern(
        longer,
        identifier,
    ) == listed_pattern(entries, identifier) by {
        let at = choose|at: int|
            0 <= at < entries.len() && (#[trigger] entries[at]).pattern_identifier@ == identifier;
        entry_is_listed(entries, at);
        assert(longer[at] == entries[at]);
        entry_is_listed(longer, at);
    }
    assert(listed(longer) =~= listed(entries).insert(entry.pattern_identifier@, entry.pattern@));
}

proof fn entry_is_removed(entries: Seq<PromptPatternEntry>, removed: int)
    requires
        identifiers_differ(entries),
        0 <= removed < entries.len(),
    ensures
        identifiers_differ(entries.remove(removed)),
        listed(entries.remove(removed)) == listed(entries).remove(
            entries[removed].pattern_identifier@,
        ),
{
    let shorter = entries.remove(removed);
    let name = entries[removed].pattern_identifier@;
    assert forall|i: int| 0 <= i < shorter.len() implies #[trigger] shorter[i] == entries[if i
        < removed {
        i
    } else {
        i + 1
    }] by {}
    assert forall|identifier: Seq<char>| #[trigger] is_listed(shorter, identifier) <==> is_listed(
        entries,
        identifier,
    ) && identifier != name by {
        if is_listed(entries, identifier) && identifier != name {
            let at = choose|at: int|
                0 <= at < entries.len() && (#[trigger] entries[at]).pattern_identifier@
                    == identifier;
            let moved = if at < removed {
                at
            } else {
                at - 1
            };
            assert(shorter[moved] == entries[at]);
        }
    }
    assert forall|identifier: Seq<char>| is_listed(shorter, identifier) implies listed_pattern(
        shorter,
        identifier,
    ) == listed_pattern(entries, identifier) by {
        let at = choose|at: int|
            0 <= at < shorter.len() && (#[trigger] shorter[at]).pattern_identifier@ == identifier;
        entry_is_listed(shorter, at);
        let moved = if at < removed {
            at
        } else {
            at + 1
        };
        assert(shorter[at] == entries[moved]);
        entry_is_listed(entries, moved);
    }
    assert(listed(shorter) =~= listed(entries).remove(name));
}

proof fn same_entries_list_the_same(
    copies: Seq<PromptPatternEntry>,
    entries: Seq<PromptPatternEntry>,
)
    requires
        identifiers_differ(entries),
        copies.len() == entries.len(),
        forall|i: int|
            0 <= i < copies.len() ==> (#[trigger] copies[i]).pattern_identifier@
                == entries[i].pattern_identifier@ && copies[i].pattern@ == entries[i].pattern@,
    ensures
        identifiers_differ(copies),
        listed(copies) == listed(entries),
{
    assert forall|i: int, j: int| 0 <= i < j < copies.len() implies (
    #[trigger] copies[i]).pattern_identifier@ != (#[trigger] copies[j]).pattern_identifier@ by {
        assert(entries[i].pattern_identifier@ != entries[j].pattern_identifier@);
    }
    assert forall|identifier: Seq<char>| #[trigger] is_listed(copies, identifier) <==> is_listed(
        entries,
        identifier,
    ) by {
        if is_listed(entries, identifier) {
            let at = choose|at: int|
                0 <= at < entries.len() && (#[trigger] entries[at]).pattern_identifier@
                    == identifier;
            assert(copies[at].pattern_identifier@ == identifier);
        }
    }
    assert forall|identifier: Seq<char>| is_listed(copies, identifier) implies listed_pattern(
        copies,
        identifier,
    ) == listed_pattern(entries, identifier) by {
        let at = choose|at: int|
            0 <= at < copies.len() && (#[trigger] copies[at]).pattern_identifier@ == identifier;
        entry_is_listed(copies, at);
        entry_is_listed(entries, at);
    }
    assert(listed(copies) =~= listed(entries));
}

/// What the control plane remembers, as contracts speak of it.
pub ghost struct SignalMemory {
    /// The number that the next prompt pattern gets.
    pub next_prompt_pattern: u64,
    pub prompt_patterns: Map<Seq<char>, Pattern>,
    /// The prompt state of each lease, by the number of the lease.
    pub signal_leases: Map<u64, PromptState>,
}

/// The identifier that a number stands for.
pub open spec fn pattern_identifier(number: u64) -> Seq<char> {
    "prompt-pattern-"@ + decimal(number as nat)
}

/// The number of a lease.
pub open spec fn lease_key(lease: Lease) -> u64 {
    lease.input_gate_lease_identifier as u64
}

impl SignalMemory {
    /// Nothing to remember.
    pub open spec fn empty() -> SignalMemory {
        SignalMemory {
            next_prompt_pattern: 1,
            prompt_patterns: Map::empty(),
            signal_leases: Map::empty(),
        }
    }

    /// A pattern is put under the next number. The last number is given out
    /// again and again.
    pub open spec fn registering(self, pattern: Pattern) -> SignalMemory {
        SignalMemory {
            next_prompt_pattern: if self.next_prompt_pattern == u64::MAX {
                u64::MAX
            } else {
                (self.next_prompt_pattern + 1) as u64
            },
            prompt_patterns: self.prompt_patterns.insert(
                pattern_identifier(self.next_prompt_pattern),
                pattern,
            ),
            ..self
        }
    }

    pub open spec fn unregistering(self, identifier: Seq<char>) -> SignalMemory {
        SignalMemory { prompt_patterns: self.prompt_patterns.remove(identifier), ..self }
    }

    pub open spec fn recording(self, key: u64, state: PromptState) -> SignalMemory {
        SignalMemory { signal_leases: self.signal_leases.insert(key, state), ..self }
    }

    pub open spec fn releasing(self, key: u64) -> SignalMemory {
        SignalMemory { signal_leases: self.signal_leases.remove(key), ..self }
    }

    /// The prompt state under which a lease was given out.
    pub open spec fn lease_state(self, lease: Lease) -> Option<PromptState> {
        if self.signal_leases.contains_key(lease_key(lease)) {
            Some(self.signal_leases[lease_key(lease)])
        } else {
            None
        }
    }

    /// The pattern that an identifier selects.
    pub open spec fn selected(self, identifier: Seq<char>) -> Option<Pattern> {
        if self.prompt_patterns.contains_key(identifier) {
            Some(self.prompt_patterns[identifier])
        } else {
            None
        }
    }

    /// Whether every identifier in use was given out for a number below the next.
    pub open spec fn identifiers_are_spent(self) -> bool {
        forall|identifier: Seq<char>| #[trigger]
            self.prompt_patterns.contains_key(identifier) ==> exists|number: u64|
                number < self.next_prompt_pattern && identifier == #[trigger] pattern_identifier(
                    number,
                )
    }
}

/// The memory of the control plane for Signal clients.
#[derive(Debug)]
pub struct TerminalSignalControlState {
    next_prompt_pattern: u64,
    prompt_patterns: PromptPatterns,
    signal_leases: HashMap<u64, PromptState>,
}

impl View for TerminalSignalControlState {
    type V = SignalMemory;

    closed spec fn view(&self) -> SignalMemory {
        SignalMemory {
            next_prompt_pattern: self.next_prompt_pattern,
            prompt_patterns: self.prompt_patterns@,
            signal_leases: self.signal_leases@,
        }
    }
}

impl TerminalSignalControlState {
    pub fn new() -> (state: Self)
        ensures
            state@ == SignalMemory::empty(),
    {
        broadcast use vstd::std_specs::hash::group_hash_axioms;

        TerminalSignalControlState {
            next_prompt_pattern: 1,
            prompt_patterns: PromptPatterns::new(),
            signal_leases: HashMap::new(),
        }
    }

    /// Gives a pattern the next identifier.
    pub fn register_prompt_pattern(&mut self, pattern: PromptPattern) -> (identifier: String)
        ensures
            identifier@ == pattern_identifier(old(self)@.next_prompt_pattern),
            final(self)@ == old(self)@.registering(pattern@),
    {
        let number: u64 = self.next_prompt_pattern;
        let identifier = joined("prompt-pattern-", decimal_text(number).as_str());
        self.next_prompt_pattern = number.saturating_add(1);
        self.prompt_patterns.insert(identifier.clone(), pattern);
        identifier
    }

    pub fn unregister_prompt_pattern(&mut self, identifier: &String)
        ensures
            final(self)@ == old(self)@.unregistering(identifier@),
    {
        self.prompt_patterns.remove(identifier);
    }

    /// All prompt patterns, each once, in no order that means anything.
    pub fn prompt_pattern_entries(&self) -> (entries: Vec<PromptPatternEntry>)
        ensures
            listed(entries@) == self@.prompt_patterns,
            identifiers_differ(entries@),
    {
        self.prompt_patterns.entries()
    }

    pub fn prompt_pattern(&self, identifier: &String) -> (pattern: Option<PromptPattern>)
        ensures
            match self@.selected(identifier@) {
                Some(expected) => pattern matches Some(found) && found@ == expected,
                None => pattern is None,
            },
    {
        self.prompt_patterns.get(identifier)
    }

    pub fn record_signal_lease(&mut self, lease: Lease, prompt_state: PromptState)
        ensures
            final(self)@ == old(self)@.recording(lease_key(lease), prompt_state),
    {
        broadcast use vstd::std_specs::hash::group_hash_axioms;

        let _ = self.signal_leases.insert(Self::signal_lease_key(&lease), prompt_state);
    }

    pub fn signal_lease_prompt_state(&self, lease: &Lease) -> (state: Option<PromptState>)
        ensures
            state == self@.lease_state(*lease),
    {
        broadcast use vstd::std_specs::hash::group_hash_axioms;

        match self.signal_leases.get(&Self::signal_lease_key(lease)) {
            Some(state) => Some(*state),
            None => None,
        }
    }

    pub fn release_signal_lease(&mut self, lease: &Lease)
        ensures
            final(self)@ == old(self)@.releasing(lease_key(*lease)),
    {
        broadcast use vstd::std_specs::hash::group_hash_axioms;

        let _ = self.signal_leases.remove(&Self::signal_lease_key(lease));
    }

    pub fn release_terminal_lease(&mut self, lease: &TerminalInputGateLease)
        ensures
            final(self)@ == old(self)@.releasing(lease.sequence.value),
    {
        broadcast use vstd::std_specs::hash::group_hash_axioms;

        let _ = self.signal_leases.remove(&lease.sequence().into_u64());
    }

    fn signal_lease_key(lease: &Lease) -> (key: u64)
        ensures
            key == lease_key(*lease),
    {
        lease.input_gate_lease_identifier as u64
    }
}

/// Two numbers with the same identifier are equal.
pub proof fn pattern_identifiers_differ(a: u64, b: u64)
    requires
        pattern_identifier(a) == pattern_identifier(b),
    ensures
        a == b,
{
    let prefix = "prompt-pattern-"@;
    assert(pattern_identifier(a).skip(prefix.len() as int) =~= decimal(a as nat));
    assert(pattern_identifier(b).skip(prefix.len() as int) =~= decimal(b as nat));
    decimal_is_injective(a as nat, b as nat);
}

/// A pattern gets an identifier that no registered pattern has: every other
/// pattern stays as it is, under its own identifier.
pub proof fn registration_is_fresh(memory: SignalMemory, pattern: Pattern)
    requires
        memory.identifiers_are_spent(),
    ensures
        !memory.prompt_patterns.contains_key(pattern_identifier(memory.next_prompt_pattern)),
        memory.registering(pattern).selected(pattern_identifier(memory.next_prompt_pattern))
            == Some(pattern),
        forall|other: Seq<char>|
            other != pattern_identifier(memory.next_prompt_pattern) ==> memory.registering(
                pattern,
            ).selected(other) == #[trigger] memory.selected(other),
{
    let fresh = pattern_identifier(memory.next_prompt_pattern);
    if memory.prompt_patterns.contains_key(fresh) {
        let number = choose|number: u64|
            number < memory.next_prompt_pattern && fresh == #[trigger] pattern_identifier(number);
        pattern_identifiers_differ(number, memory.next_prompt_pattern);
    }
}

/// Identifiers stay spent, whatever is remembered or forgotten, as long as
/// numbers are left.
pub proof fn identifiers_stay_spent(
    memory: SignalMemory,
    pattern: Pattern,
    identifier: Seq<char>,
    key: u64,
    state: PromptState,
)
    requires
        memory.identifiers_are_spent(),
    ensures
        SignalMemory::empty().identifiers_are_spent(),
        memory.next_prompt_pattern < u64::MAX ==> memory.registering(
            pattern,
        ).identifiers_are_spent(),
        memory.unregistering(identifier).identifiers_are_spent(),
        memory.recording(key, state).identifiers_are_spent(),
        memory.releasing(key).identifiers_are_spent(),
{
    if memory.next_prompt_pattern < u64::MAX {
        let later = memory.registering(pattern);
        assert forall|id: Seq<char>| #[trigger]
            later.prompt_patterns.contains_key(id) implies exists|number: u64|
            number < later.next_prompt_pattern && id == #[trigger] pattern_identifier(number) by {
            if memory.prompt_patterns.contains_key(id) {
                let number = choose|number: u64|
                    number < memory.next_prompt_pattern && id == #[trigger] pattern_identifier(
                        number,
                    );
                assert(number < later.next_prompt_pattern);
            } else {
                assert(id == pattern_identifier(memory.next_prompt_pattern));
            }
        }
    }
    let fewer = memory.unregistering(identifier);
    assert forall|id: Seq<char>| #[trigger] fewer.prompt_patterns.contains_key(id) implies exists|
        number: u64,
    |
        number < fewer.next_prompt_pattern && id == #[trigger] pattern_identifier(number) by {
        assert(memory.prompt_patterns.contains_key(id));
    }
    assert(memory.recording(key, state).prompt_patterns == memory.prompt_patterns);
    assert(memory.releasing(key).prompt_patterns == memory.prompt_patterns);
}

/// Registering and unregistering a pattern leaves the patterns as they were.
pub proof fn unregistering_undoes_registering(memory: SignalMemory, pattern: Pattern)
    requires
        memory.identifiers_are_spent(),
    ensures
        memory.registering(pattern).unregistering(
            pattern_identifier(memory.next_prompt_pattern),
        ).prompt_patterns == memory.prompt_patterns,
{
    registration_is_fresh(memory, pattern);
    let fresh = pattern_identifier(memory.next_prompt_pattern);
    assert(memory.registering(pattern).unregistering(fresh).prompt_patterns
        =~= memory.prompt_patterns);
}

/// A lease is known under the prompt state that was recorded for it, and unknown
/// once it has been released. Other leases are not touched.
pub proof fn leases_are_kept_apart(
    memory: SignalMemory,
    lease: Lease,
    other: Lease,
    state: PromptState,
)
    ensures
        memory.recording(lease_key(lease), state).lease_state(lease) == Some(state),
        memory.releasing(lease_key(lease)).lease_state(lease) is None,
        lease != other ==> memory.recording(lease_key(lease), state).lease_state(other)
            == memory.lease_state(other),
        lease != other ==> memory.releasing(lease_key(lease)).lease_state(other)
            == memory.lease_state(other),
{
    let a = lease.input_gate_lease_identifier;
    let b = other.input_gate_lease_identifier;
    assert(a != b ==> (a as u64) != (b as u64)) by (bit_vector);
}

/// Whether a number is that of a lease: the identifier of the lease, or, where that is
/// negative, what it is short of two to the power of 64.
pub open spec fn is_number_of(number: u64, lease: Lease) -> bool {
    let identifier = lease.input_gate_lease_identifier as int;
    number == if identifier >= 0 {
        identifier
    } else {
        identifier + 0x1_0000_0000_0000_0000
    }
}

/// A lease is kept under its own number, and no other lease has that number.
pub proof fn lease_numbers_are_their_own(lease: Lease, other: Lease)
    ensures
        is_number_of(lease_key(lease), lease),
        lease_key(lease) == lease_key(other) ==> lease == other,
        forall|number: u64| is_number_of(number, lease) ==> number == lease_key(lease),
{
    let a = lease.input_gate_lease_identifier;
    let b = other.input_gate_lease_identifier;
    assert(a >= 0 ==> (a as u64) == a) by (bit_vector);
    assert(a < 0 ==> (a as u64) == a + 0x1_0000_0000_0000_0000int) by (bit_vector);
    assert(a != b ==> (a as u64) != (b as u64)) by (bit_vector);
}

/// A memory that is new knows no pattern and no lease, and counts patterns from one.
pub proof fn new_memory_is_empty(
    state: TerminalSignalControlState,
    identifier: Seq<char>,
    lease: Lease,
)
    requires
        call_ensures(TerminalSignalControlState::new, (), state),
    ensures
        state@.selected(identifier) is None,
        state@.lease_state(lease) is None,
        state@.next_prompt_pattern == 1,
{
}

/// An identifier is a prefix and the digits of its number.
pub proof fn identifier_holds_the_number(number: u64)
    ensures
        ({
            let identifier = pattern_identifier(number);
            let prefix = "prompt-pattern-"@;
            &&& prefix.is_prefix_of(identifier)
            &&& forall|at: int|
                prefix.len() <= at < identifier.len() ==> is_digit(#[trigger] identifier[at])
            &&& numeral_value(identifier.skip(prefix.len() as int)) == number
        }),
{
    let prefix = "prompt-pattern-"@;
    let identifier = pattern_identifier(number);
    decimal_is_a_numeral(number as nat);
    assert(identifier.skip(prefix.len() as int) =~= decimal(number as nat));
    assert(prefix =~= identifier.take(prefix.len() as int));
    assert forall|at: int| prefix.len() <= at < identifier.len() implies is_digit(
        #[trigger] identifier[at],
    ) by {
        assert(identifier[at] == decimal(number as nat)[at - prefix.len()]);
    }
}

/// A pattern is registered under a name with the next number in it. From there on that name
/// selects it; every other name selects what it did, and every lease is as it was.
pub proof fn registered_name_selects_the_pattern(
    state: &mut TerminalSignalControlState,
    pattern: PromptPattern,
    identifier: String,
    other: Seq<char>,
    lease: Lease,
)
    requires
        call_ensures(
            TerminalSignalControlState::register_prompt_pattern,
            (state, pattern),
            identifier,
        ),
    ensures
        "prompt-pattern-"@.is_prefix_of(identifier@),
        forall|at: int|
            "prompt-pattern-"@.len() <= at < identifier@.len() ==> is_digit(
                #[trigger] identifier@[at],
            ),
        numeral_value(identifier@.skip("prompt-pattern-"@.len() as int))
            == old(state)@.next_prompt_pattern,
        final(state)@.selected(identifier@) == Some(pattern@),
        other != identifier@ ==> final(state)@.selected(other) == old(state)@.selected(other),
        final(state)@.lease_state(lease) == old(state)@.lease_state(lease),
        final(state)@.next_prompt_pattern == if old(state)@.next_prompt_pattern < u64::MAX {
            old(state)@.next_prompt_pattern + 1
        } else {
            u64::MAX as int
        },
{
    identifier_holds_the_number(old(state)@.next_prompt_pattern);
}

/// Two patterns that are registered one behind the other get two names, as long as numbers
/// are left.
pub proof fn registrations_get_names_of_their_own(
    first_state: &mut TerminalSignalControlState,
    first: PromptPattern,
    first_name: String,
    second_state: &mut TerminalSignalControlState,
    second: PromptPattern,
    second_name: String,
)
    requires
        call_ensures(
            TerminalSignalControlState::register_prompt_pattern,
            (first_state, first),
            first_name,
        ),
        call_ensures(
            TerminalSignalControlState::register_prompt_pattern,
            (second_state, second),
            second_name,
        ),
        final(first_state)@ == old(second_state)@,
        old(first_state)@.next_prompt_pattern < u64::MAX,
    ensures
        first_name@ != second_name@,
        final(second_state)@.selected(first_name@) == Some(first@),
        final(second_state)@.selected(second_name@) == Some(second@),
{
    if first_name@ == second_name@ {
        pattern_identifiers_differ(
            old(first_state)@.next_prompt_pattern,
            old(second_state)@.next_prompt_pattern,
        );
    }
}

/// A name that is unregistered selects nothing. Every other name selects what it did, every
/// lease is as it was, and the next number stays the next.
pub proof fn unregistered_name_selects_nothing(
    state: &mut TerminalSignalControlState,
    identifier: String,
    other: Seq<char>,
    lease: Lease,
)
    requires
        call_ensures(
            TerminalSignalControlState::unregister_prompt_pattern,
            (state, &identifier),
            (),
        ),
    ensures
        final(state)@.selected(identifier@) is None,
        other != identifier@ ==> final(state)@.selected(other) == old(state)@.selected(other),
        final(state)@.lease_state(lease) == old(state)@.lease_state(lease),
        final(state)@.next_prompt_pattern == old(state)@.next_prompt_pattern,
{
}

/// The list holds every name that selects a pattern, with that pattern, and holds it once.
pub proof fn list_holds_what_is_selected(
    state: TerminalSignalControlState,
    entries: Vec<PromptPatternEntry>,
    name: Seq<char>,
)
    requires
        call_ensures(TerminalSignalControlState::prompt_pattern_entries, (&state,), entries),
    ensures
        forall|at: int|
            0 <= at < entries@.len() ==> state@.selected(
                (#[trigger] entries@[at]).pattern_identifier@,
            ) == Some(entries@[at].pattern@),
        state@.selected(name) is Some ==> exists|at: int|
            0 <= at < entries@.len() && (#[trigger] entries@[at]).pattern_identifier@ == name,
        forall|at: int, later: int|
            0 <= at < later < entries@.len() ==> (#[trigger] entries@[at]).pattern_identifier@ != (
            #[trigger] entries@[later]).pattern_identifier@,
{
    entries_are_what_they_list(entries@, state@.prompt_patterns, name);
}

/// Entries with names of their own list what their map holds.
pub proof fn entries_are_what_they_list(
    entries: Seq<PromptPatternEntry>,
    patterns: Map<Seq<char>, Pattern>,
    name: Seq<char>,
)
    requires
        listed(entries) == patterns,
        identifiers_differ(entries),
    ensures
        forall|at: int|
            0 <= at < entries.len() ==> patterns.contains_key(
                (#[trigger] entries[at]).pattern_identifier@,
            ) && patterns[entries[at].pattern_identifier@] == entries[at].pattern@,
        patterns.contains_key(name) ==> exists|at: int|
            0 <= at < entries.len() && (#[trigger] entries[at]).pattern_identifier@ == name,
        forall|at: int, later: int|
            0 <= at < later < entries.len() ==> (#[trigger] entries[at]).pattern_identifier@ != (
            #[trigger] entries[later]).pattern_identifier@,
{
    assert forall|at: int| 0 <= at < entries.len() implies patterns.contains_key(
        (#[trigger] entries[at]).pattern_identifier@,
    ) && patterns[entries[at].pattern_identifier@] == entries[at].pattern@ by {
        assert(is_listed(entries, entries[at].pattern_identifier@));
    }
    if patterns.contains_key(name) {
        assert(is_listed(entries, name));
    }
}

/// What is looked up is what the name selects.
pub proof fn pattern_is_looked_up(
    state: TerminalSignalControlState,
    identifier: String,
    pattern: Option<PromptPattern>,
)
    requires
        call_ensures(TerminalSignalControlState::prompt_pattern, (&state, &identifier), pattern),
    ensures
        match pattern {
            Some(found) => state@.selected(identifier@) == Some(found@),
            None => state@.selected(identifier@) is None,
        },
{
}

/// A lease is known with the prompt state that was recorded for it. Every other lease is as
/// it was, and so are the patterns.
pub proof fn recorded_lease_is_known(
    state: &mut TerminalSignalControlState,
    lease: Lease,
    prompt: PromptState,
    other: Lease,
    identifier: Seq<char>,
)
    requires
        call_ensures(TerminalSignalControlState::record_signal_lease, (state, lease, prompt), ()),
    ensures
        final(state)@.lease_state(lease) == Some(prompt),
        other != lease ==> final(state)@.lease_state(other) == old(state)@.lease_state(other),
        final(state)@.selected(identifier) == old(state)@.selected(identifier),
        final(state)@.next_prompt_pattern == old(state)@.next_prompt_pattern,
{
    lease_numbers_are_their_own(lease, other);
}

/// What is looked up of a lease is what is known of it.
pub proof fn lease_is_looked_up(
    state: TerminalSignalControlState,
    lease: Lease,
    prompt: Option<PromptState>,
)
    requires
        call_ensures(
            TerminalSignalControlState::signal_lease_prompt_state,
            (&state, &lease),
            prompt,
        ),
    ensures
        prompt == state@.lease_state(lease),
{
}

/// A lease that is released is unknown, whether a Signal client or the terminal names it.
/// Every other lease is as it was, and so are the patterns.
pub proof fn forgotten_lease_is_unknown(
    state: &mut TerminalSignalControlState,
    lease: Lease,
    terminal_lease: TerminalInputGateLease,
    other: Lease,
    identifier: Seq<char>,
)
    requires
        ({
            ||| call_ensures(
                TerminalSignalControlState::release_signal_lease,
                (state, &lease),
                (),
            )
            ||| is_number_of(terminal_lease.sequence.value, lease) && call_ensures(
                TerminalSignalControlState::release_terminal_lease,
                (state, &terminal_lease),
                (),
            )
        }),
    ensures
        final(state)@.lease_state(lease) is None,
        other != lease ==> final(state)@.lease_state(other) == old(state)@.lease_state(other),
        final(state)@.selected(identifier) == old(state)@.selected(identifier),
        final(state)@.next_prompt_pattern == old(state)@.next_prompt_pattern,
{
    lease_numbers_are_their_own(lease, other);
}

} // verus!
