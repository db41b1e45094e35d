//! Source-qualified tool filtering for `SessionConfig::available_tools`.
//!
//! Tools are classified by the runtime at registration time, so a filter
//! entry such as `builtin:foo` only matches tools the runtime registered as
//! built-in. A [`ToolSet`] accumulates such entries; every entry it holds has
//! the shape `<kind>:<name>` where `<kind>` is `builtin`, `mcp` or `custom`
//! and `<name>` is either the wildcard `*` or a non-empty run of ASCII
//! letters, digits, `_` and `-`.
use vstd::prelude::*;
use vstd::string::*;

verus! {

/// Characters allowed in a tool name: `[a-zA-Z0-9_-]`.
pub open spec fn is_tool_name_char(c: char) -> bool {
    ||| ('a' <= c && c <= 'z')
    ||| ('A' <= c && c <= 'Z')
    ||| ('0' <= c && c <= '9')
    ||| c == '_'
    ||| c == '-'
}

/// The runtime's `^[a-zA-Z0-9_-]+$` name rule.
pub open spec fn spec_valid_tool_name(name: Seq<char>) -> bool {
    &&& name.len() > 0
    &&& forall|i: int| 0 <= i < name.len() ==> #[trigger] is_tool_name_char(name[i])
}

/// A name is accepted when it is the wildcard `*` or satisfies the name rule.
pub open spec fn accepts_tool_name(name: Seq<char>) -> bool {
    name == seq!['*'] || spec_valid_tool_name(name)
}

/// The filter string recorded for `name` under classification `kind`.
pub open spec fn filter_entry(kind: Seq<char>, name: Seq<char>) -> Seq<char> {
    kind + seq![':'] + name
}

/// The entries after adding `name` under `kind`: appended when accepted,
/// unchanged otherwise.
pub open spec fn added(items: Seq<Seq<char>>, kind: Seq<char>, name: Seq<char>) -> Seq<Seq<char>> {
    if accepts_tool_name(name) {
        items.push(filter_entry(kind, name))
    } else {
        items
    }
}

/// The three classifications a tool filter entry can carry.
pub open spec fn is_tool_kind(kind: Seq<char>) -> bool {
    kind == "builtin"@ || kind == "mcp"@ || kind == "custom"@
}

/// A well-formed filter entry: `<kind>:<name>` with a known kind and an
/// accepted name.
pub open spec fn is_filter_entry(entry: Seq<char>) -> bool {
    exists|kind: Seq<char>, name: Seq<char>|
        is_tool_kind(kind) && accepts_tool_name(name) && entry == #[trigger] filter_entry(kind, name)
}

/// Adds every name of `names`, in order, under `kind`.
pub open spec fn added_many(items: Seq<Seq<char>>, kind: Seq<char>, names: Seq<Seq<char>>) -> Seq<Seq<char>>
    decreases names.len(),
{
    if names.len() == 0 {
        items
    } else {
        added(added_many(items, kind, names.drop_last()), kind, names.last())
    }
}

/// Error returned when a tool name passed to [`ToolSet`] is not the wildcard
/// `*` and does not match the runtime's `^[a-zA-Z0-9_-]+$` name rule.
#[derive(Debug, Clone, PartialEq, Eq)]
pub struct InvalidToolName {
    /// The classification the name was added under (`builtin`, `mcp`, `custom`).
    pub kind: &'static str,
    /// The offending name.
    pub name: String,
}

impl InvalidToolName {
    /// The human-readable message of this error.
    pub fn message(&self) -> (s: String)
        ensures
            s@ == "Invalid "@ + self.kind@ + " tool name '"@ + self.name@
                + "': tool names must match /^[a-zA-Z0-9_-]+$/ or be the wildcard '*'."@,
    {
        let mut s = "Invalid ".to_owned();
        s.append(self.kind);
        s.append(" tool name '");
        s.append(self.name.as_str());
        s.append("': tool names must match /^[a-zA-Z0-9_-]+$/ or be the wildcard '*'.");
        s
    }
}

/// Whether `c` may appear in a tool name.
fn tool_name_char(c: char) -> (b: bool)
    ensures
        b == is_tool_name_char(c),
{
    ('a' <= c && c <= 'z') || ('A' <= c && c <= 'Z') || ('0' <= c && c <= '9') || c == '_' || c
        == '-'
}

/// Checks the runtime's `^[a-zA-Z0-9_-]+$` tool-name rule.
pub fn is_valid_tool_name(name: &str) -> (b: bool)
    ensures
        b == spec_valid_tool_name(name@),
{
    let n = name.unicode_len();
    if n == 0 {
        return false;
    }
    let mut i: usize = 0;
    while i < n
        invariant
            n == name@.len(),
            i <= n,
            forall|j: int| 0 <= j < i ==> #[trigger] is_tool_name_char(name@[j]),
        decreases n - i,
    {
        if !tool_name_char(name.get_char(i)) {
            assert(!is_tool_name_char(name@[i as int]));
            return false;
        }
        i = i + 1;
    }
    true
}

/// Whether `name` is exactly the wildcard `*`.
fn is_wildcard(name: &str) -> (b: bool)
    ensures
        b == (name@ == seq!['*']),
{
    if name.unicode_len() != 1 {
        return false;
    }
    let c = name.get_char(0);
    proof {
        if c == '*' {
            assert(name@ =~= seq!['*']);
        }
    }
    c == '*'
}

/// Builder that produces a list of source-qualified tool filter strings for
/// `SessionConfig::available_tools`.
///
/// The infallible `add_*` methods silently skip invalid names; use the
/// `try_add_*` variants to surface an [`InvalidToolName`] error instead.
#[derive(Debug)]
pub struct ToolSet {
    items: Vec<String>,
}

impl View for ToolSet {
    type V = Seq<Seq<char>>;

    closed spec fn view(&self) -> Seq<Seq<char>> {
        self.items@.map_values(|s: String| s@)
    }
}

impl ToolSet {
    /// Every entry is a well-formed `<kind>:<name>` filter.
    #[verifier::type_invariant]
    pub closed spec fn wf(&self) -> bool {
        forall|i: int| 0 <= i < self@.len() ==> #[trigger] is_filter_entry(self@[i])
    }

    /// Create an empty tool set.
    pub fn new() -> (s: Self)
        ensures
            s@ == Seq::<Seq<char>>::empty(),
    {
        let s = ToolSet { items: Vec::new() };
        assert(s@ =~= Seq::<Seq<char>>::empty());
        s
    }

    fn push(&mut self, kind: &'static str, name: &str) -> (r: Result<(), InvalidToolName>)
        requires
            is_tool_kind(kind@),
        ensures
            final(self)@ == added(old(self)@, kind@, name@),
            r is Ok <==> accepts_tool_name(name@),
            r matches Err(e) ==> e.kind@ == kind@ && e.name@ == name@,
    {
        if !is_wildcard(name) && !is_valid_tool_name(name) {
            return Err(InvalidToolName { kind, name: name.to_owned() });
        }
        proof {
            use_type_invariant(&*self);
        }
        let mut entry = kind.to_owned();
        entry.append(":");
        entry.append(name);
        let ghost before = self@;
        let ghost e = entry@;
        let mut items: Vec<String> = Vec::new();
        std::mem::swap(&mut items, &mut self.items);
        items.push(entry);
        proof {
            reveal_strlit(":");
            assert(":"@ =~= seq![':']);
            assert(e == filter_entry(kind@, name@));
            let iv = items@.map_values(|s: String| s@);
            assert(iv =~= before.push(filter_entry(kind@, name@)));
            assert(is_filter_entry(filter_entry(kind@, name@)));
            assert forall|i: int| 0 <= i < iv.len() implies #[trigger] is_filter_entry(iv[i]) by {
                if i < before.len() {
                    assert(iv[i] == before[i]);
                }
            }
        }
        self.items = items;
        Ok(())
    }

    /// Add a single built-in tool pattern (a specific name or `"*"`).
    /// Invalid names are skipped; use [`ToolSet::try_add_built_in`] to detect them.
    pub fn add_built_in(self, name: &str) -> (s: Self)
        ensures
            s@ == added(self@, "builtin"@, name@),
    {
        let mut s = self;
        let _ = s.push("builtin", name);
        s
    }

    /// Add multiple built-in tool patterns (e.g. [`BuiltInTools::ISOLATED`]),
    /// in order, skipping invalid ones.
    pub fn add_built_in_many(self, names: &[&str]) -> (s: Self)
        ensures
            s@ == added_many(self@, "builtin"@, names@.map_values(|n: &str| n@)),
    {
        let mut s = self;
        let ghost start = self@;
        let ghost all = names@.map_values(|n: &str| n@);
        let mut i: usize = 0;
        while i < names.len()
            invariant
                i <= names@.len(),
                all == names@.map_values(|n: &str| n@),
                s@ == added_many(start, "builtin"@, all.take(i as int)),
            decreases names.len() - i,
        {
            let _ = s.push("builtin", names[i]);
            proof {
                assert(all.take(i + 1).drop_last() =~= all.take(i as int));
                assert(all.take(i + 1).last() == names@[i as int]@);
            }
            i = i + 1;
        }
        assert(all.take(names@.len() as int) =~= all);
        s
    }

    /// Add a custom tool pattern (a specific name or `"*"`).
    pub fn add_custom(self, name: &str) -> (s: Self)
        ensures
            s@ == added(self@, "custom"@, name@),
    {
        let mut s = self;
        let _ = s.push("custom", name);
        s
    }

    /// Add an MCP tool pattern (the canonical wire name or `"*"`).
    pub fn add_mcp(self, tool_name: &str) -> (s: Self)
        ensures
            s@ == added(self@, "mcp"@, tool_name@),
    {
        let mut s = self;
        let _ = s.push("mcp", tool_name);
        s
    }

    /// Fallible variant of [`ToolSet::add_built_in`].
    pub fn try_add_built_in(self, name: &str) -> (r: Result<Self, InvalidToolName>)
        ensures
            r is Ok <==> accepts_tool_name(name@),
            r matches Ok(s) ==> s@ == self@.push(filter_entry("builtin"@, name@)),
            r matches Err(e) ==> e.kind@ == "builtin"@ && e.name@ == name@,
    {
        let mut s = self;
        s.push("builtin", name)?;
        Ok(s)
    }

    /// Fallible variant of [`ToolSet::add_custom`].
    pub fn try_add_custom(self, name: &str) -> (r: Result<Self, InvalidToolName>)
        ensures
            r is Ok <==> accepts_tool_name(name@),
            r matches Ok(s) ==> s@ == self@.push(filter_entry("custom"@, name@)),
            r matches Err(e) ==> e.kind@ == "custom"@ && e.name@ == name@,
    {
        let mut s = self;
        s.push("custom", name)?;
        Ok(s)
    }

    /// Fallible variant of [`ToolSet::add_mcp`].
    pub fn try_add_mcp(self, tool_name: &str) -> (r: Result<Self, InvalidToolName>)
        ensures
            r is Ok <==> accepts_tool_name(tool_name@),
            r matches Ok(s) ==> s@ == self@.push(filter_entry("mcp"@, tool_name@)),
            r matches Err(e) ==> e.kind@ == "mcp"@ && e.name@ == tool_name@,
    {
        let mut s = self;
        s.push("mcp", tool_name)?;
        Ok(s)
    }

    /// Returns a copy of the accumulated filter strings, each a well-formed
    /// `<kind>:<name>` filter.
    pub fn to_vec(&self) -> (v: Vec<String>)
        ensures
            v@.map_values(|s: String| s@) == self@,
            forall|i: int| 0 <= i < v@.len() ==> #[trigger] is_filter_entry(v@[i]@),
    {
        proof {
            use_type_invariant(self);
        }
        let v = self.items.clone();
        proof {
            assert(v@.map_values(|s: String| s@) =~= self@);
            assert forall|i: int| 0 <= i < v@.len() implies #[trigger] is_filter_entry(v@[i]@) by {
                assert(self@[i] == v@[i]@);
            }
        }
        v
    }

    /// Consumes the builder and returns the accumulated filter strings, each
    /// a well-formed `<kind>:<name>` filter.
    pub fn into_vec(self) -> (v: Vec<String>)
        ensures
            v@.map_values(|s: String| s@) == self@,
            forall|i: int| 0 <= i < v@.len() ==> #[trigger] is_filter_entry(v@[i]@),
    {
        proof {
            use_type_invariant(&self);
        }
        let v = self.items;
        proof {
            assert forall|i: int| 0 <= i < v@.len() implies #[trigger] is_filter_entry(v@[i]@) by {
                assert(self@[i] == v@[i]@);
            }
        }
        v
    }
}

impl Clone for ToolSet {
    /// A tool set with the same entries.
    fn clone(&self) -> (r: Self)
        ensures
            r@ == self@,
    {
        let items = self.to_vec();
        ToolSet { items }
    }
}

impl Default for ToolSet {
    /// An empty tool set.
    fn default() -> (r: Self)
        ensures
            r@ == Seq::<Seq<char>>::empty(),
    {
        ToolSet::new()
    }
}

impl From<ToolSet> for Vec<String> {
    fn from(set: ToolSet) -> (v: Vec<String>) {
        set.items
    }
}

impl vstd::std_specs::convert::FromSpecImpl<ToolSet> for Vec<String> {
    open spec fn obeys_from_spec() -> bool {
        true
    }

    closed spec fn from_spec(set: ToolSet) -> Vec<String> {
        set.items
    }
}

/// Curated sets of built-in tool names for common scenarios, meant to be
/// passed to [`ToolSet::add_built_in_many`].
pub struct BuiltInTools;

impl BuiltInTools {
    /// Built-in tools that operate only within the bounds of a single session:
    /// no host filesystem access outside the session, no cross-session state,
    /// no host environment access, no network.
    pub const ISOLATED: &'static [&'static str; 10] = &[
        "ask_user",
        "task_complete",
        "exit_plan_mode",
        "task",
        "read_agent",
        "write_agent",
        "list_agents",
        "send_inbox",
        "context_board",
        "skill",
    ];
}

/// Law: a tool set built with the infallible and fallible builders only ever
/// holds well-formed `<kind>:<name>` entries, and an entry is recorded for a
/// name exactly when the name is accepted.
pub proof fn law_added_entries_are_well_formed(items: Seq<Seq<char>>, kind: Seq<char>, name: Seq<char>)
    requires
        is_tool_kind(kind),
        forall|i: int| 0 <= i < items.len() ==> #[trigger] is_filter_entry(items[i]),
    ensures
        forall|i: int| 0 <= i < added(items, kind, name).len() ==> #[trigger] is_filter_entry(
            added(items, kind, name)[i],
        ),
        added(items, kind, name).len() == items.len() + if accepts_tool_name(name) { 1int } else { 0int },
{
    if accepts_tool_name(name) {
        assert(is_filter_entry(filter_entry(kind, name)));
        assert forall|i: int| 0 <= i < added(items, kind, name).len() implies #[trigger] is_filter_entry(
            added(items, kind, name)[i],
        ) by {
            if i < items.len() {
                assert(added(items, kind, name)[i] == items[i]);
            }
        }
    }
}

/// Law: copying the entries out with `to_vec` gives the same list as
/// cloning the set and consuming the clone with `into_vec`; `listed` and
/// `consumed` stand for what the two return, as their contracts give it.
pub proof fn law_to_vec_matches_clone_into_vec(
    t: ToolSet,
    copy: ToolSet,
    listed: Seq<String>,
    consumed: Seq<String>,
)
    requires
        copy@ == t@,
        listed.map_values(|s: String| s@) == t@,
        consumed.map_values(|s: String| s@) == copy@,
    ensures
        listed.map_values(|s: String| s@) == consumed.map_values(|s: String| s@),
{
}

/// Law: the names a tool set accepts are those of the rule
/// `^[a-zA-Z0-9_-]+$` and the wildcard `*`: a name is accepted exactly when
/// it is `*` or a non-empty string each of whose characters is an ASCII
/// lowercase letter, an ASCII uppercase letter, an ASCII digit, `_` or `-`.
pub proof fn law_accepted_tool_names(name: Seq<char>)
    ensures
        accepts_tool_name(name) <==> (name == seq!['*'] || (name.len() > 0 && forall|i: int|
            #![trigger name[i]]
            0 <= i < name.len() ==> (('a' <= name[i] && name[i] <= 'z') || ('A' <= name[i]
                && name[i] <= 'Z') || ('0' <= name[i] && name[i] <= '9') || name[i] == '_'
                || name[i] == '-'))),
        forall|c: char| '0' <= c && c <= '9' ==> #[trigger] is_tool_name_char(c),
{
    if name.len() > 0 && forall|i: int|
        #![trigger name[i]]
        0 <= i < name.len() ==> (('a' <= name[i] && name[i] <= 'z') || ('A' <= name[i] && name[i]
            <= 'Z') || ('0' <= name[i] && name[i] <= '9') || name[i] == '_' || name[i] == '-') {
        assert forall|i: int| 0 <= i < name.len() implies #[trigger] is_tool_name_char(name[i]) by {}
    }
    if spec_valid_tool_name(name) {
        assert forall|i: int| 0 <= i < name.len() implies (('a' <= name[i] && name[i] <= 'z') || (
        'A' <= name[i] && name[i] <= 'Z') || ('0' <= name[i] && name[i] <= '9') || name[i] == '_'
            || name[i] == '-') by {
            assert(is_tool_name_char(name[i]));
        }
    }
}

} // verus!
