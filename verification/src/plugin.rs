//! Plugins: packages of tools installed together. The registry keeps which
//! plugins are installed and which plugin each tool came from, so that a
//! plugin can be unloaded with its tools.

use vstd::prelude::*;

use crate::text::{clone_strings, own, push_str, str_eq, string_from_chars, views};

verus! {

/// Why a plugin operation failed.
#[derive(Debug, Clone)]
pub enum PluginError {
    /// A plugin with this id is installed already.
    AlreadyRegistered(String),
    /// No plugin with this id is installed.
    NotRegistered(String),
    /// The plugin could not build its tools.
    Load { plugin: String, reason: String },
}

impl PluginError {
    /// The error's message.
    pub fn message(&self) -> (r: String)
        ensures
            r@ == match self {
                PluginError::AlreadyRegistered(id) => "plugin '"@ + id@ + "' is already registered"@,
                PluginError::NotRegistered(id) => "plugin '"@ + id@ + "' is not registered"@,
                PluginError::Load { plugin, reason } => "plugin '"@ + plugin@ + "' load failed: "@ + reason@,
            },
    {
        let mut m: Vec<char> = Vec::new();
        push_str(&mut m, "plugin '");
        match self {
            PluginError::AlreadyRegistered(id) => {
                push_str(&mut m, id.as_str());
                push_str(&mut m, "' is already registered");
            },
            PluginError::NotRegistered(id) => {
                push_str(&mut m, id.as_str());
                push_str(&mut m, "' is not registered");
            },
            PluginError::Load { plugin, reason } => {
                push_str(&mut m, plugin.as_str());
                push_str(&mut m, "' load failed: ");
                push_str(&mut m, reason.as_str());
            },
        }
        string_from_chars(&m)
    }
}

/// An installed plugin: its id, its label and the tools it contributed.
#[derive(Debug, Clone)]
pub struct LoadedPlugin {
    pub id: String,
    pub label: String,
    pub tool_names: Vec<String>,
}

/// The text of a plugin entry: id, then label and tool names.
pub open spec fn plugin_view(p: LoadedPlugin) -> (Seq<char>, (Seq<char>, Seq<Seq<char>>)) {
    (p.id@, (p.label@, views(p.tool_names@)))
}

/// The texts of plugin entries.
pub open spec fn plugin_views(s: Seq<LoadedPlugin>) -> Seq<(Seq<char>, (Seq<char>, Seq<Seq<char>>))> {
    s.map_values(|p: LoadedPlugin| plugin_view(p))
}

/// The map a list of keyed entries describes: a later entry for a key wins.
pub open spec fn entries_map<V>(s: Seq<(Seq<char>, V)>) -> Map<Seq<char>, V>
    decreases s.len(),
{
    if s.len() == 0 {
        Map::empty()
    } else {
        entries_map(s.drop_last()).insert(s.last().0, s.last().1)
    }
}

/// The entries of `s` whose key is not `k`, in order.
pub open spec fn without_key<V>(s: Seq<(Seq<char>, V)>, k: Seq<char>) -> Seq<(Seq<char>, V)>
    decreases s.len(),
{
    if s.len() == 0 {
        s
    } else if s.last().0 == k {
        without_key(s.drop_last(), k)
    } else {
        without_key(s.drop_last(), k).push(s.last())
    }
}

/// No key occurs twice in `s`.
pub open spec fn keys_unique<V>(s: Seq<(Seq<char>, V)>) -> bool {
    forall|i: int, j: int| 0 <= i < j < s.len() ==> s[i].0 != s[j].0
}

/// `m` with every name of `names` mapped to `id`, in order.
pub open spec fn assign_all(m: Map<Seq<char>, Seq<char>>, names: Seq<Seq<char>>, id: Seq<char>) -> Map<
    Seq<char>,
    Seq<char>,
>
    decreases names.len(),
{
    if names.len() == 0 {
        m
    } else {
        assign_all(m, names.drop_last(), id).insert(names.last(), id)
    }
}

/// `m` without any of `names`.
pub open spec fn remove_all(m: Map<Seq<char>, Seq<char>>, names: Seq<Seq<char>>) -> Map<Seq<char>, Seq<char>>
    decreases names.len(),
{
    if names.len() == 0 {
        m
    } else {
        remove_all(m, names.drop_last()).remove(names.last())
    }
}

/// Dropping the entries of a key removes the key from the map.
pub proof fn lemma_without_key<V>(s: Seq<(Seq<char>, V)>, k: Seq<char>)
    ensures
        entries_map(without_key(s, k)) == entries_map(s).remove(k),
        without_key(s, k).len() <= s.len(),
        forall|i: int| 0 <= i < without_key(s, k).len() ==> (#[trigger] without_key(s, k)[i]).0 != k,
    decreases s.len(),
{
    if s.len() > 0 {
        lemma_without_key(s.drop_last(), k);
        if s.last().0 == k {
            assert(entries_map(s).remove(k) =~= entries_map(s.drop_last()).remove(k));
        } else {
            assert(without_key(s, k).drop_last() =~= without_key(s.drop_last(), k));
            assert(entries_map(without_key(s, k)) =~= entries_map(s).remove(k));
        }
    }
}

/// Appending an entry sets its key.
pub proof fn lemma_entries_push<V>(s: Seq<(Seq<char>, V)>, e: (Seq<char>, V))
    ensures
        entries_map(s.push(e)) == entries_map(s).insert(e.0, e.1),
{
    assert(s.push(e).drop_last() =~= s);
}

/// A key is in the map exactly when some entry has it; with distinct keys,
/// the map holds each entry's value.
pub proof fn lemma_entries_map<V>(s: Seq<(Seq<char>, V)>)
    ensures
        forall|k: Seq<char>| #[trigger] entries_map(s).contains_key(k) <==> exists|i: int| 0 <= i < s.len() && s[i].0 == k,
        keys_unique(s) ==> forall|i: int| 0 <= i < s.len() ==> entries_map(s)[#[trigger] s[i].0] == s[i].1,
    decreases s.len(),
{
    if s.len() > 0 {
        let d = s.drop_last();
        lemma_entries_map(d);
        assert forall|k: Seq<char>| #[trigger] entries_map(s).contains_key(k) <==> exists|i: int| 0 <= i < s.len() && s[i].0 == k by {
            if entries_map(s).contains_key(k) {
                if k == s.last().0 {
                    assert(s[s.len() - 1].0 == k);
                } else {
                    assert(entries_map(d).contains_key(k));
                    let i = choose|i: int| 0 <= i < d.len() && d[i].0 == k;
                    assert(s[i].0 == k);
                }
            }
            if exists|i: int| 0 <= i < s.len() && s[i].0 == k {
                let i = choose|i: int| 0 <= i < s.len() && s[i].0 == k;
                if i < d.len() {
                    assert(d[i].0 == k);
                    assert(entries_map(d).contains_key(k));
                }
            }
        }
        if keys_unique(s) {
            assert forall|i: int| 0 <= i < s.len() implies entries_map(s)[#[trigger] s[i].0] == s[i].1 by {
                if i < d.len() {
                    assert(d[i] == s[i]);
                    assert(s[i].0 != s.last().0);
                }
            }
        }
    }
}

/// After a later entry for `k`, the map holds that entry's value.
proof fn lemma_last_entry<V>(s: Seq<(Seq<char>, V)>, j: int, k: Seq<char>)
    requires
        0 <= j < s.len(),
        s[j].0 == k,
        forall|i: int| j < i < s.len() ==> s[i].0 != k,
    ensures
        entries_map(s).contains_key(k),
        entries_map(s)[k] == s[j].1,
    decreases s.len(),
{
    if j < s.len() - 1 {
        lemma_last_entry(s.drop_last(), j, k);
    }
}

/// Every assigned name maps to the plugin afterwards.
pub proof fn lemma_assign_all(m: Map<Seq<char>, Seq<char>>, names: Seq<Seq<char>>, id: Seq<char>)
    ensures
        forall|i: int| 0 <= i < names.len() ==> #[trigger] assign_all(m, names, id).contains_key(names[i])
            && assign_all(m, names, id)[names[i]] == id,
        forall|k: Seq<char>| !names.contains(k) ==> #[trigger] assign_all(m, names, id).contains_key(k) == m.contains_key(k),
        forall|k: Seq<char>| !names.contains(k) && m.contains_key(k) ==> #[trigger] assign_all(m, names, id)[k] == m[k],
    decreases names.len(),
{
    if names.len() > 0 {
        let d = names.drop_last();
        lemma_assign_all(m, d, id);
        assert forall|i: int| 0 <= i < names.len() implies #[trigger] assign_all(m, names, id).contains_key(names[i])
            && assign_all(m, names, id)[names[i]] == id by {
            if i < d.len() {
                assert(d[i] == names[i]);
                assert(assign_all(m, d, id).contains_key(d[i]));
            }
        }
        assert forall|k: Seq<char>| !names.contains(k) implies #[trigger] assign_all(m, names, id).contains_key(k)
            == m.contains_key(k) && (m.contains_key(k) ==> assign_all(m, names, id)[k] == m[k]) by {
            if d.contains(k) {
                let i = choose|i: int| 0 <= i < d.len() && d[i] == k;
                assert(names[i] == k);
            }
            assert(names[names.len() - 1] == names.last());
            assert(k != names.last());
            assert(assign_all(m, d, id).contains_key(k) == m.contains_key(k));
            if m.contains_key(k) {
                assert(assign_all(m, d, id)[k] == m[k]);
            }
        }
        assert forall|k: Seq<char>| !names.contains(k) && m.contains_key(k) implies #[trigger] assign_all(
            m,
            names,
            id,
        )[k] == m[k] by {
            assert(assign_all(m, names, id).contains_key(k) == m.contains_key(k));
        }
    }
}

/// None of the removed names is left.
pub proof fn lemma_remove_all(m: Map<Seq<char>, Seq<char>>, names: Seq<Seq<char>>)
    ensures
        forall|i: int| 0 <= i < names.len() ==> !#[trigger] remove_all(m, names).contains_key(names[i]),
    decreases names.len(),
{
    if names.len() > 0 {
        let d = names.drop_last();
        lemma_remove_all(m, d);
        assert forall|i: int| 0 <= i < names.len() implies !#[trigger] remove_all(m, names).contains_key(names[i]) by {
            if i < d.len() {
                assert(d[i] == names[i]);
                assert(!remove_all(m, d).contains_key(d[i]));
            }
        }
    }
}

/// Dropping names keeps every other name, with its value.
pub proof fn lemma_remove_all_frame(m: Map<Seq<char>, Seq<char>>, names: Seq<Seq<char>>)
    ensures
        forall|k: Seq<char>| #[trigger] remove_all(m, names).contains_key(k) <==> (m.contains_key(k) && !names.contains(k)),
        forall|k: Seq<char>| #[trigger] remove_all(m, names).contains_key(k) ==> remove_all(m, names)[k] == m[k],
    decreases names.len(),
{
    if names.len() > 0 {
        let d = names.drop_last();
        let x = names.last();
        lemma_remove_all_frame(m, d);
        assert forall|k: Seq<char>| #[trigger] remove_all(m, names).contains_key(k) <==> (m.contains_key(k)
            && !names.contains(k)) by {
            assert(remove_all(m, names) == remove_all(m, d).remove(x));
            if d.contains(k) {
                let i = choose|i: int| 0 <= i < d.len() && d[i] == k;
                assert(names[i] == k);
                assert(names.contains(k));
            }
            if k == x {
                assert(names[names.len() - 1] == k);
                assert(names.contains(k));
            }
            if names.contains(k) && k != x {
                let i = choose|i: int| 0 <= i < names.len() && names[i] == k;
                assert(i != names.len() - 1);
                assert(d[i] == k);
                assert(d.contains(k));
            }
        }
        assert forall|k: Seq<char>| #[trigger] remove_all(m, names).contains_key(k) implies remove_all(m, names)[k]
            == m[k] by {
            assert(remove_all(m, names) == remove_all(m, d).remove(x));
            assert(remove_all(m, d).contains_key(k));
        }
    }
}

/// A call that changes the plugin registry: installing plugin `id`
/// labelled `label` with the tools `tools`, or unloading plugin `id`.
pub enum PluginOp {
    Install { id: Seq<char>, label: Seq<char>, tools: Seq<Seq<char>> },
    Unregister { id: Seq<char> },
}

/// The installed plugins after `ops`, starting from none: an install of an
/// id not installed adds it, an install of an installed id changes
/// nothing, an unload removes the id.
pub open spec fn installed_after(ops: Seq<PluginOp>) -> Map<Seq<char>, (Seq<char>, Seq<Seq<char>>)>
    decreases ops.len(),
{
    if ops.len() == 0 {
        Map::empty()
    } else {
        let m = installed_after(ops.drop_last());
        match ops.last() {
            PluginOp::Install { id, label, tools } => if m.contains_key(id) {
                m
            } else {
                m.insert(id, (label, tools))
            },
            PluginOp::Unregister { id } => m.remove(id),
        }
    }
}

/// The provenance of tools after `ops`, starting from none: a successful
/// install assigns its tools to the plugin, a successful unload forgets
/// the plugin's tools.
pub open spec fn provenance_after(ops: Seq<PluginOp>) -> Map<Seq<char>, Seq<char>>
    decreases ops.len(),
{
    if ops.len() == 0 {
        Map::empty()
    } else {
        let m = installed_after(ops.drop_last());
        let p = provenance_after(ops.drop_last());
        match ops.last() {
            PluginOp::Install { id, label, tools } => if m.contains_key(id) {
                p
            } else {
                assign_all(p, tools, id)
            },
            PluginOp::Unregister { id } => if m.contains_key(id) {
                remove_all(p, m[id].1)
            } else {
                p
            },
        }
    }
}

/// Every tool with a recorded origin came from an installed plugin that
/// lists it.
pub open spec fn provenance_backed(
    plugins: Map<Seq<char>, (Seq<char>, Seq<Seq<char>>)>,
    prov: Map<Seq<char>, Seq<char>>,
) -> bool {
    forall|n: Seq<char>| #[trigger]
        prov.contains_key(n) ==> plugins.contains_key(prov[n]) && plugins[prov[n]].1.contains(n)
}

/// `ops[k]` installs plugin `id` successfully (it was not installed) and
/// no later op unloads it.
pub open spec fn installed_at(ops: Seq<PluginOp>, id: Seq<char>, k: int) -> bool {
    &&& 0 <= k < ops.len()
    &&& ops[k] matches PluginOp::Install { id: i, .. } && i == id
    &&& !installed_after(ops.take(k)).contains_key(id)
    &&& forall|j: int| k < j < ops.len() ==> !(#[trigger] ops[j] matches PluginOp::Unregister { id: u } && u == id)
}

/// The label and tools that op `k` installs.
pub open spec fn installed_entry(op: PluginOp) -> (Seq<char>, Seq<Seq<char>>) {
    match op {
        PluginOp::Install { id, label, tools } => (label, tools),
        PluginOp::Unregister { id } => (Seq::empty(), Seq::empty()),
    }
}

/// After any sequence of installs and unloads, the installed plugins are
/// exactly those whose install succeeded and which were not unloaded
/// since, each with the label and tools of that install.
pub proof fn lemma_installed_after(ops: Seq<PluginOp>, id: Seq<char>)
    ensures
        installed_after(ops).contains_key(id) <==> exists|k: int| installed_at(ops, id, k),
        installed_after(ops).contains_key(id) ==> exists|k: int|
            installed_at(ops, id, k) && installed_after(ops)[id] == installed_entry(ops[k]),
    decreases ops.len(),
{
    if ops.len() > 0 {
        let d = ops.drop_last();
        let last = ops.len() - 1;
        lemma_installed_after(d, id);
        assert(ops.take(last) =~= d);
        assert forall|k: int| 0 <= k < last implies #[trigger] ops.take(k) == d.take(k) by {
            assert(ops.take(k) =~= d.take(k));
        }
        // A witness for the prefix carries over unless the last op unloads `id`.
        assert forall|k: int| installed_at(d, id, k) && !(ops[last] matches PluginOp::Unregister { id: u } && u == id)
            implies installed_at(ops, id, k) by {
            assert(ops.take(k) == d.take(k));
            assert forall|j: int| k < j < ops.len() implies !(#[trigger] ops[j] matches PluginOp::Unregister {
                id: u,
            } && u == id) by {
                if j < last {
                    assert(ops[j] == d[j]);
                }
            }
        }
        // A witness before the last op is a witness for the prefix.
        assert forall|k: int| installed_at(ops, id, k) && k < last implies installed_at(d, id, k) by {
            assert(ops.take(k) == d.take(k));
            assert(ops[k] == d[k]);
            assert forall|j: int| k < j < d.len() implies !(#[trigger] d[j] matches PluginOp::Unregister { id: u }
                && u == id) by {
                assert(ops[j] == d[j]);
            }
        }
        if installed_at(ops, id, last) {
            assert(ops.take(last) == d);
        }
        if installed_after(ops).contains_key(id) {
            if installed_after(d).contains_key(id) {
                let k = choose|k: int| installed_at(d, id, k) && installed_after(d)[id] == installed_entry(d[k]);
                assert(ops[k] == d[k]);
                assert(installed_at(ops, id, k));
            } else {
                assert(installed_at(ops, id, last));
            }
        }
        if exists|k: int| installed_at(ops, id, k) {
            let k = choose|k: int| installed_at(ops, id, k);
            if k < last {
                assert(installed_at(d, id, k));
            }
        }
    }
}

/// A tool keeps the origin a successful install gave it, as long as no
/// later successful install contributes a tool of the same name and no
/// later unload removes a plugin that lists it.
pub proof fn lemma_provenance_after_install(ops: Seq<PluginOp>, k: int, id: Seq<char>, n: Seq<char>)
    requires
        0 <= k < ops.len(),
        ops[k] matches PluginOp::Install { id: i, tools, .. } && i == id && tools.contains(n),
        !installed_after(ops.take(k)).contains_key(id),
        forall|j: int|
            k < j < ops.len() ==> !(#[trigger] ops[j] matches PluginOp::Install { id: i2, tools: t2, .. }
                && !installed_after(ops.take(j)).contains_key(i2) && t2.contains(n)),
        forall|j: int|
            k < j < ops.len() ==> !(#[trigger] ops[j] matches PluginOp::Unregister { id: u } && installed_after(
                ops.take(j),
            ).contains_key(u) && installed_after(ops.take(j))[u].1.contains(n)),
    ensures
        provenance_after(ops).contains_key(n),
        provenance_after(ops)[n] == id,
    decreases ops.len(),
{
    let last = ops.len() - 1;
    let d = ops.drop_last();
    assert(ops.take(last) =~= d);
    if k == last {
        if let PluginOp::Install { id: i, label, tools } = ops[k] {
            lemma_assign_all(provenance_after(d), tools, id);
            let x = choose|x: int| 0 <= x < tools.len() && tools[x] == n;
            assert(assign_all(provenance_after(d), tools, id).contains_key(tools[x]));
        }
    } else {
        assert forall|j: int| 0 <= j <= last implies #[trigger] ops.take(j) == d.take(j) by {
            assert(ops.take(j) =~= d.take(j));
        }
        assert(d[k] == ops[k]);
        assert forall|j: int| k < j < d.len() implies !(#[trigger] d[j] matches PluginOp::Install { id: i2, tools: t2, .. }
            && !installed_after(d.take(j)).contains_key(i2) && t2.contains(n)) by {
            assert(d[j] == ops[j]);
            assert(ops.take(j) == d.take(j));
        }
        assert forall|j: int| k < j < d.len() implies !(#[trigger] d[j] matches PluginOp::Unregister { id: u }
            && installed_after(d.take(j)).contains_key(u) && installed_after(d.take(j))[u].1.contains(n)) by {
            assert(d[j] == ops[j]);
            assert(ops.take(j) == d.take(j));
        }
        lemma_provenance_after_install(d, k, id, n);
        let p = provenance_after(d);
        let m = installed_after(d);
        match ops[last] {
            PluginOp::Install { id: i2, label, tools: t2 } => {
                if !m.contains_key(i2) {
                    assert(!t2.contains(n));
                    lemma_assign_all(p, t2, i2);
                }
            },
            PluginOp::Unregister { id: u } => {
                if m.contains_key(u) {
                    assert(!m[u].1.contains(n));
                    lemma_remove_all_frame(p, m[u].1);
                }
            },
        }
    }
}

/// The text of stored (key, value) pairs.
pub open spec fn pair_views(s: Seq<(String, String)>) -> Seq<(Seq<char>, Seq<char>)> {
    s.map_values(|p: (String, String)| (p.0@, p.1@))
}

fn drop_pairs(v: &Vec<(String, String)>, key: &str) -> (r: Vec<(String, String)>)
    ensures
        pair_views(r@) == without_key(pair_views(v@), key@),
{
    let ghost vs = pair_views(v@);
    let mut out: Vec<(String, String)> = Vec::new();
    let mut i: usize = 0;
    while i < v.len()
        invariant
            i <= v.len(),
            vs == pair_views(v@),
            pair_views(out@) == without_key(vs.take(i as int), key@),
        decreases v.len() - i,
    {
        proof {
            assert(vs.take(i + 1).drop_last() =~= vs.take(i as int));
        }
        if !str_eq(v[i].0.as_str(), key) {
            out.push((v[i].0.clone(), v[i].1.clone()));
            proof {
                assert(pair_views(out@) =~= without_key(vs.take(i as int), key@).push(vs[i as int]));
            }
        }
        i = i + 1;
    }
    proof {
        assert(vs.take(i as int) =~= vs);
    }
    out
}

fn copy_plugin(p: &LoadedPlugin) -> (r: LoadedPlugin)
    ensures
        plugin_view(r) == plugin_view(*p),
{
    LoadedPlugin { id: p.id.clone(), label: p.label.clone(), tool_names: clone_strings(&p.tool_names) }
}

/// The installed plugins and the provenance of their tools.
pub struct PluginRegistry {
    /// Tool name, then the id of the plugin it came from.
    provenance: Vec<(String, String)>,
    plugins: Vec<LoadedPlugin>,
    /// The installs and unloads made so far.
    history: Ghost<Seq<PluginOp>>,
}

impl PluginRegistry {
    /// The installed plugins by id: label and tool names.
    pub closed spec fn plugins_map(&self) -> Map<Seq<char>, (Seq<char>, Seq<Seq<char>>)> {
        entries_map(plugin_views(self.plugins@))
    }

    /// The plugin each tool came from, by tool name.
    pub closed spec fn provenance_map(&self) -> Map<Seq<char>, Seq<char>> {
        entries_map(pair_views(self.provenance@))
    }

    /// The installs and unloads made on the registry since it was created.
    pub closed spec fn history(&self) -> Seq<PluginOp> {
        self.history@
    }

    /// No plugin id is listed twice, the plugins and the provenance are
    /// those the history gives, and every recorded origin is an installed
    /// plugin that lists the tool.
    pub closed spec fn inv(&self) -> bool {
        &&& keys_unique(plugin_views(self.plugins@))
        &&& self.plugins_map() == installed_after(self.history@)
        &&& self.provenance_map() == provenance_after(self.history@)
        &&& provenance_backed(self.plugins_map(), self.provenance_map())
    }

    /// No plugin installed.
    pub fn new() -> (r: Self)
        ensures
            r.inv(),
            r.history().len() == 0,
            r.plugins_map() == Map::<Seq<char>, (Seq<char>, Seq<Seq<char>>)>::empty(),
            r.provenance_map() == Map::<Seq<char>, Seq<char>>::empty(),
    {
        let r = PluginRegistry { provenance: Vec::new(), plugins: Vec::new(), history: Ghost(Seq::empty()) };
        proof {
            assert(r.plugins_map() =~= Map::<Seq<char>, (Seq<char>, Seq<Seq<char>>)>::empty());
            assert(r.provenance_map() =~= Map::<Seq<char>, Seq<char>>::empty());
        }
        r
    }

    fn position(&self, id: &str) -> (r: Option<usize>)
        requires
            self.inv(),
        ensures
            match r {
                Some(i) => i < self.plugins@.len() && self.plugins@[i as int].id@ == id@,
                None => !self.plugins_map().contains_key(id@),
            },
    {
        let ghost s = plugin_views(self.plugins@);
        proof {
            lemma_entries_map(s);
        }
        let mut i: usize = 0;
        while i < self.plugins.len()
            invariant
                i <= self.plugins.len(),
                s == plugin_views(self.plugins@),
                forall|j: int| 0 <= j < i ==> s[j].0 != id@,
            decreases self.plugins.len() - i,
        {
            if str_eq(self.plugins[i].id.as_str(), id) {
                return Some(i);
            }
            i = i + 1;
        }
        proof {
            if entries_map(s).contains_key(id@) {
                let j = choose|j: int| 0 <= j < s.len() && s[j].0 == id@;
                assert(s[j].0 != id@);
            }
        }
        None
    }

    /// Whether a plugin with `id` may be installed: refused with
    /// `AlreadyRegistered` when one is installed already.
    pub fn install_check(&self, id: &str) -> (r: Result<(), PluginError>)
        requires
            self.inv(),
        ensures
            match r {
                Ok(()) => !self.plugins_map().contains_key(id@),
                Err(e) => self.plugins_map().contains_key(id@) && (e matches PluginError::AlreadyRegistered(x) && x@
                    == id@),
            },
    {
        match self.position(id) {
            Some(i) => {
                proof {
                    lemma_entries_map(plugin_views(self.plugins@));
                    assert(plugin_views(self.plugins@)[i as int].0 == id@);
                }
                Err(PluginError::AlreadyRegistered(own(id)))
            },
            None => Ok(()),
        }
    }

    /// Records plugin `id` labelled `label` whose tools `tool_names` were
    /// built and registered: each tool now comes from `id` (a tool of the
    /// same name from another plugin is taken over). Refused with
    /// `AlreadyRegistered`, changing nothing, when `id` is installed.
    pub fn install_built(&mut self, id: &str, label: &str, tool_names: &Vec<String>) -> (r: Result<
        LoadedPlugin,
        PluginError,
    >)
        requires
            old(self).inv(),
        ensures
            final(self).inv(),
            final(self).history() == old(self).history().push(
                PluginOp::Install { id: id@, label: label@, tools: views(tool_names@) },
            ),
            match r {
                Ok(p) => {
                    &&& !old(self).plugins_map().contains_key(id@)
                    &&& plugin_view(p) == (id@, (label@, views(tool_names@)))
                    &&& final(self).plugins_map() == old(self).plugins_map().insert(id@, (label@, views(tool_names@)))
                    &&& final(self).provenance_map() == assign_all(
                        old(self).provenance_map(),
                        views(tool_names@),
                        id@,
                    )
                },
                Err(e) => {
                    &&& old(self).plugins_map().contains_key(id@)
                    &&& (e matches PluginError::AlreadyRegistered(x) && x@ == id@)
                    &&& final(self).plugins_map() == old(self).plugins_map()
                    &&& final(self).provenance_map() == old(self).provenance_map()
                },
            },
    {
        let ghost op = PluginOp::Install { id: id@, label: label@, tools: views(tool_names@) };
        let ghost h = self.history@;
        proof {
            assert(h.push(op).drop_last() =~= h);
        }
        match self.install_check(id) {
            Err(e) => {
                self.history = Ghost(self.history@.push(op));
                return Err(e);
            },
            Ok(()) => {},
        }
        let ghost names = views(tool_names@);
        let ghost start = self.provenance_map();
        let mut i: usize = 0;
        while i < tool_names.len()
            invariant
                i <= tool_names.len(),
                names == views(tool_names@),
                self.plugins == old(self).plugins,
                self.history == old(self).history,
                self.provenance_map() == assign_all(start, names.take(i as int), id@),
            decreases tool_names.len() - i,
        {
            let name = tool_names[i].as_str();
            let ghost before = pair_views(self.provenance@);
            let mut kept = drop_pairs(&self.provenance, name);
            proof {
                lemma_without_key(before, name@);
            }
            kept.push((own(name), own(id)));
            self.provenance = kept;
            proof {
                assert(pair_views(self.provenance@) =~= without_key(before, name@).push((name@, id@)));
                lemma_entries_push(without_key(before, name@), (name@, id@));
                assert(names.take(i + 1).drop_last() =~= names.take(i as int));
                assert(names.take(i + 1).last() == name@);
                assert(entries_map(before).remove(name@).insert(name@, id@) =~= entries_map(before).insert(name@, id@));
                assert(self.provenance_map() =~= assign_all(start, names.take(i + 1), id@));
            }
            i = i + 1;
        }
        proof {
            assert(names.take(i as int) =~= names);
        }
        let entry = LoadedPlugin { id: own(id), label: own(label), tool_names: clone_strings(tool_names) };
        let ghost before_plugins = plugin_views(self.plugins@);
        self.plugins.push(copy_plugin(&entry));
        proof {
            lemma_entries_map(before_plugins);
            assert(plugin_views(self.plugins@) =~= before_plugins.push((id@, (label@, names))));
            lemma_entries_push(before_plugins, (id@, (label@, names)));
            assert forall|a: int, b: int|
                0 <= a < b < plugin_views(self.plugins@).len() implies plugin_views(self.plugins@)[a].0
                != plugin_views(self.plugins@)[b].0 by {
                if b == before_plugins.len() {
                    assert(before_plugins[a].0 != id@);
                }
            }
        }
        self.history = Ghost(self.history@.push(op));
        proof {
            let old_plugins = old(self).plugins_map();
            let old_prov = old(self).provenance_map();
            lemma_assign_all(old_prov, names, id@);
            assert forall|n: Seq<char>| #[trigger] self.provenance_map().contains_key(n) implies self.plugins_map().contains_key(
                self.provenance_map()[n],
            ) && self.plugins_map()[self.provenance_map()[n]].1.contains(n) by {
                if names.contains(n) {
                    let x = choose|x: int| 0 <= x < names.len() && names[x] == n;
                    assert(self.provenance_map()[names[x]] == id@);
                } else {
                    assert(old_prov.contains_key(n));
                    assert(old_plugins.contains_key(old_prov[n]));
                }
            }
        }
        Ok(entry)
    }

    /// Unloads plugin `id` and forgets the provenance of its tools, which
    /// are returned so that the caller can remove them. `NotRegistered`,
    /// changing nothing, when no such plugin is installed.
    pub fn unregister(&mut self, id: &str) -> (r: Result<Vec<String>, PluginError>)
        requires
            old(self).inv(),
        ensures
            final(self).inv(),
            final(self).history() == old(self).history().push(PluginOp::Unregister { id: id@ }),
            match r {
                Ok(names) => {
                    &&& old(self).plugins_map().contains_key(id@)
                    &&& views(names@) == old(self).plugins_map()[id@].1
                    &&& final(self).plugins_map() == old(self).plugins_map().remove(id@)
                    &&& final(self).provenance_map() == remove_all(old(self).provenance_map(), views(names@))
                },
                Err(e) => {
                    &&& !old(self).plugins_map().contains_key(id@)
                    &&& (e matches PluginError::NotRegistered(x) && x@ == id@)
                    &&& final(self).plugins_map() == old(self).plugins_map()
                    &&& final(self).provenance_map() == old(self).provenance_map()
                },
            },
    {
        let ghost op = PluginOp::Unregister { id: id@ };
        let ghost h = self.history@;
        proof {
            assert(h.push(op).drop_last() =~= h);
        }
        let idx = match self.position(id) {
            None => {
                self.history = Ghost(self.history@.push(op));
                proof {
                    assert(self.plugins_map().remove(id@) =~= self.plugins_map());
                }
                return Err(PluginError::NotRegistered(own(id)));
            },
            Some(i) => i,
        };
        let ghost ps = plugin_views(self.plugins@);
        proof {
            lemma_entries_map(ps);
            assert(ps[idx as int].0 == id@);
        }
        let names = clone_strings(&self.plugins[idx].tool_names);
        proof {
            assert(views(names@) == ps[idx as int].1.1);
            assert(entries_map(ps)[id@] == ps[idx as int].1);
        }
        let mut kept: Vec<LoadedPlugin> = Vec::new();
        let mut i: usize = 0;
        while i < self.plugins.len()
            invariant
                i <= self.plugins.len(),
                ps == plugin_views(self.plugins@),
                plugin_views(kept@) == without_key(ps.take(i as int), id@),
            decreases self.plugins.len() - i,
        {
            proof {
                assert(ps.take(i + 1).drop_last() =~= ps.take(i as int));
            }
            if !str_eq(self.plugins[i].id.as_str(), id) {
                kept.push(copy_plugin(&self.plugins[i]));
                proof {
                    assert(plugin_views(kept@) =~= without_key(ps.take(i as int), id@).push(ps[i as int]));
                }
            }
            i = i + 1;
        }
        proof {
            assert(ps.take(i as int) =~= ps);
            lemma_without_key(ps, id@);
            lemma_without_key_unique(ps, id@);
        }
        self.plugins = kept;
        let ghost plugins_now = self.plugins@;
        let ghost start = self.provenance_map();
        let ghost nv = views(names@);
        let mut j: usize = 0;
        while j < names.len()
            invariant
                j <= names.len(),
                nv == views(names@),
                self.provenance_map() == remove_all(start, nv.take(j as int)),
                self.plugins@ == plugins_now,
                self.history == old(self).history,
            decreases names.len() - j,
        {
            let ghost before = pair_views(self.provenance@);
            self.provenance = drop_pairs(&self.provenance, names[j].as_str());
            proof {
                lemma_without_key(before, nv[j as int]);
                assert(nv.take(j + 1).drop_last() =~= nv.take(j as int));
                assert(nv.take(j + 1).last() == nv[j as int]);
            }
            j = j + 1;
        }
        proof {
            assert(nv.take(j as int) =~= nv);
        }
        self.history = Ghost(self.history@.push(op));
        proof {
            let old_plugins = old(self).plugins_map();
            let old_prov = old(self).provenance_map();
            lemma_remove_all_frame(old_prov, nv);
            assert forall|n: Seq<char>| #[trigger] self.provenance_map().contains_key(n) implies self.plugins_map().contains_key(
                self.provenance_map()[n],
            ) && self.plugins_map()[self.provenance_map()[n]].1.contains(n) by {
                assert(old_prov.contains_key(n));
                assert(!nv.contains(n));
                assert(old_plugins.contains_key(old_prov[n]));
                assert(old_prov[n] != id@);
            }
        }
        Ok(names)
    }

    /// The installed plugins, each once.
    pub fn list(&self) -> (r: Vec<LoadedPlugin>)
        requires
            self.inv(),
        ensures
            entries_map(plugin_views(r@)) == self.plugins_map(),
            entries_map(plugin_views(r@)) == installed_after(self.history()),
            keys_unique(plugin_views(r@)),
    {
        let mut out: Vec<LoadedPlugin> = Vec::new();
        let mut i: usize = 0;
        while i < self.plugins.len()
            invariant
                i <= self.plugins.len(),
                plugin_views(out@) == plugin_views(self.plugins@).take(i as int),
            decreases self.plugins.len() - i,
        {
            let ghost old_out = out@;
            let c = copy_plugin(&self.plugins[i]);
            out.push(c);
            proof {
                assert(plugin_views(out@) =~= plugin_views(old_out).push(plugin_view(c)));
                assert(plugin_views(out@) =~= plugin_views(self.plugins@).take(i + 1));
            }
            i = i + 1;
        }
        proof {
            assert(plugin_views(self.plugins@).take(i as int) =~= plugin_views(self.plugins@));
        }
        out
    }

    /// The plugin tool `tool_name` came from, if any.
    pub fn provenance_of(&self, tool_name: &str) -> (r: Option<String>)
        requires
            self.inv(),
        ensures
            match r {
                Some(id) => self.provenance_map().contains_key(tool_name@) && self.provenance_map()[tool_name@] == id@,
                None => !self.provenance_map().contains_key(tool_name@),
            },
            match r {
                Some(id) => provenance_after(self.history()).contains_key(tool_name@)
                    && provenance_after(self.history())[tool_name@] == id@,
                None => !provenance_after(self.history()).contains_key(tool_name@),
            },
    {
        let ghost s = pair_views(self.provenance@);
        let mut i: usize = self.provenance.len();
        while i > 0
            invariant
                i <= self.provenance.len(),
                s == pair_views(self.provenance@),
                self.provenance_map() == provenance_after(self.history()),
                forall|j: int| i <= j < s.len() ==> s[j].0 != tool_name@,
            decreases i,
        {
            if str_eq(self.provenance[i - 1].0.as_str(), tool_name) {
                proof {
                    lemma_last_entry(s, i - 1, tool_name@);
                }
                return Some(self.provenance[i - 1].1.clone());
            }
            i = i - 1;
        }
        proof {
            lemma_entries_map(s);
            if entries_map(s).contains_key(tool_name@) {
                let j = choose|j: int| 0 <= j < s.len() && s[j].0 == tool_name@;
                assert(s[j].0 != tool_name@);
            }
        }
        None
    }
}

/// Dropping a key keeps the other keys distinct.
proof fn lemma_without_key_unique<V>(s: Seq<(Seq<char>, V)>, k: Seq<char>)
    requires
        keys_unique(s),
    ensures
        keys_unique(without_key(s, k)),
        forall|i: int| 0 <= i < without_key(s, k).len() ==> exists|j: int| 0 <= j < s.len() && s[j] == #[trigger] without_key(s, k)[i],
    decreases s.len(),
{
    if s.len() > 0 {
        let d = s.drop_last();
        assert(keys_unique(d));
        lemma_without_key_unique(d, k);
        let w = without_key(d, k);
        if s.last().0 != k {
            assert forall|i: int| 0 <= i < w.len() implies w[i].0 != s.last().0 by {
                let j = choose|j: int| 0 <= j < d.len() && d[j] == w[i];
                assert(s[j] == d[j]);
            }
            assert forall|i: int| 0 <= i < without_key(s, k).len() implies exists|j: int| 0 <= j < s.len() && s[j] == #[trigger] without_key(s, k)[i] by {
                if i < w.len() {
                    let j = choose|j: int| 0 <= j < d.len() && d[j] == w[i];
                    assert(s[j] == d[j]);
                } else {
                    assert(s[s.len() - 1] == without_key(s, k)[i]);
                }
            }
        } else {
            assert forall|i: int| 0 <= i < without_key(s, k).len() implies exists|j: int| 0 <= j < s.len() && s[j] == #[trigger] without_key(s, k)[i] by {
                let j = choose|j: int| 0 <= j < d.len() && d[j] == w[i];
                assert(s[j] == d[j]);
            }
        }
    }
}

/// Installing a plugin and then unloading it leaves the installed plugins
/// as they were, and none of its tools with a recorded origin.
pub proof fn lemma_install_then_unregister(
    before: Map<Seq<char>, (Seq<char>, Seq<Seq<char>>)>,
    prov: Map<Seq<char>, Seq<char>>,
    id: Seq<char>,
    label: Seq<char>,
    names: Seq<Seq<char>>,
)
    requires
        !before.contains_key(id),
    ensures
        before.insert(id, (label, names)).remove(id) == before,
        forall|i: int| 0 <= i < names.len() ==> !#[trigger] remove_all(assign_all(prov, names, id), names).contains_key(
            names[i],
        ),
        forall|i: int| 0 <= i < names.len() ==> #[trigger] assign_all(prov, names, id).contains_key(names[i])
            && assign_all(prov, names, id)[names[i]] == id,
{
    assert(before.insert(id, (label, names)).remove(id) =~= before);
    lemma_remove_all(assign_all(prov, names, id), names);
    lemma_assign_all(prov, names, id);
}

/// A tool has a recorded origin only if an installed plugin contributed
/// it: the origin is installed and lists the tool.
pub proof fn lemma_provenance_from_installed(r: &PluginRegistry, n: Seq<char>)
    requires
        r.inv(),
    ensures
        r.provenance_map().contains_key(n) ==> r.plugins_map().contains_key(r.provenance_map()[n])
            && r.plugins_map()[r.provenance_map()[n]].1.contains(n),
        r.plugins_map() == installed_after(r.history()),
        r.provenance_map() == provenance_after(r.history()),
{
}

} // verus!
