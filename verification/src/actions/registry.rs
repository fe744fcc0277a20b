//! The registry of actions: which actions apply to a content type, in which order they are
//! offered, and how plugin actions are swapped on reload.
use vstd::prelude::*;
use crate::actions::traits::{
    descriptor_of, kinds_of, ActionDescriptor, ActionInfo, DescriptorView, InfoView,
};
use crate::classifier::{ContentKind, ContentType};
use crate::text::{chars_of, lowercase, to_lowercase};

verus! {

/// How an action's supported type relates to the content at hand.
#[derive(Debug, Clone, Copy, PartialEq, Eq)]
pub enum ActionMatchKind {
    /// The action is made for this kind of content.
    Specific,
    /// The action applies through a more general kind (plain-text actions on arithmetic).
    General,
}

/// How a supported type matches the actual type: plain-text actions apply generally to
/// arithmetic; code and table types match whatever their hint; equal types match specifically.
pub open spec fn match_kind(supported: ContentKind, actual: ContentKind) -> Option<ActionMatchKind> {
    if supported is PlainText && actual is MathExpression {
        Some(ActionMatchKind::General)
    } else if supported is Code && actual is Code {
        Some(ActionMatchKind::Specific)
    } else if supported is TableData && actual is TableData {
        Some(ActionMatchKind::Specific)
    } else if supported == actual {
        Some(ActionMatchKind::Specific)
    } else {
        None
    }
}

/// How a supported type matches the actual type (language and format hints ignored).
pub fn content_type_match_kind(supported: &ContentType, actual: &ContentType) -> (r: Option<
    ActionMatchKind,
>)
    ensures
        r == match_kind(supported@, actual@),
{
    match (supported, actual) {
        (ContentType::PlainText, ContentType::MathExpression) => Some(ActionMatchKind::General),
        (ContentType::Code(_), ContentType::Code(_)) => Some(ActionMatchKind::Specific),
        (ContentType::TableData(_), ContentType::TableData(_)) => Some(ActionMatchKind::Specific),
        _ => {
            if supported.same_as(actual) {
                Some(ActionMatchKind::Specific)
            } else {
                None
            }
        },
    }
}

/// The strongest match among an action's supported types: specific over general.
pub open spec fn best_match(types: Seq<ContentKind>, actual: ContentKind) -> Option<ActionMatchKind> {
    if exists|i: int|
        0 <= i < types.len() && match_kind(#[trigger] types[i], actual) == Some(
            ActionMatchKind::Specific,
        ) {
        Some(ActionMatchKind::Specific)
    } else if exists|i: int|
        0 <= i < types.len() && match_kind(#[trigger] types[i], actual) == Some(
            ActionMatchKind::General,
        ) {
        Some(ActionMatchKind::General)
    } else {
        None
    }
}

/// The descriptor of an action for some content, with its scope, when the action applies.
pub open spec fn scoped_descriptor(info: InfoView, actual: ContentKind, locale: Seq<char>) -> Option<
    DescriptorView,
> {
    match best_match(info.supported_types, actual) {
        None => None,
        Some(k) => {
            let d = descriptor_of(info, locale);
            Some(
                DescriptorView {
                    id: d.id,
                    display_name: d.display_name,
                    description: d.description,
                    action_scope: if k == ActionMatchKind::Specific {
                        "specific"@
                    } else {
                        "general"@
                    },
                    requires_model: d.requires_model,
                    estimated_duration_ms: d.estimated_duration_ms,
                },
            )
        },
    }
}

/// The strongest match among an action's supported types.
pub fn best_match_exec(types: &Vec<ContentType>, actual: &ContentType) -> (r: Option<
    ActionMatchKind,
>)
    ensures
        r == best_match(kinds_of(types@), actual@),
{
    let ghost ks = kinds_of(types@);
    let mut found: Option<ActionMatchKind> = None;
    let ghost mut at: int = 0;
    let mut i: usize = 0;
    while i < types.len()
        invariant
            i <= types@.len(),
            ks == kinds_of(types@),
            forall|k: int|
                0 <= k < i ==> match_kind(#[trigger] ks[k], actual@) != Some(
                    ActionMatchKind::Specific,
                ),
            found is None ==> forall|k: int| 0 <= k < i ==> match_kind(#[trigger] ks[k], actual@) is None,
            found is Some ==> found == Some(ActionMatchKind::General) && 0 <= at < i && match_kind(
                ks[at],
                actual@,
            ) == Some(ActionMatchKind::General),
        decreases types@.len() - i,
    {
        let m = content_type_match_kind(&types[i], actual);
        assert(ks[i as int] == types@[i as int]@);
        assert(m == match_kind(ks[i as int], actual@));
        match m {
            Some(ActionMatchKind::Specific) => {
                return Some(ActionMatchKind::Specific);
            },
            Some(ActionMatchKind::General) => {
                found = Some(ActionMatchKind::General);
                proof {
                    at = i as int;
                }
            },
            None => {},
        }
        i = i + 1;
    }
    proof {
        if found is None {
            assert(!exists|k: int|
                0 <= k < ks.len() && match_kind(#[trigger] ks[k], actual@) == Some(
                    ActionMatchKind::Specific,
                ));
            assert(!exists|k: int|
                0 <= k < ks.len() && match_kind(#[trigger] ks[k], actual@) == Some(
                    ActionMatchKind::General,
                ));
        } else {
            assert(match_kind(ks[at], actual@) == Some(ActionMatchKind::General));
        }
    }
    found
}

/// The descriptor of `info` for content of type `content_type`, with the action's scope set to
/// "specific" or "general", or nothing when the action does not apply.
pub fn descriptor_for_action(info: &ActionInfo, content_type: &ContentType, locale: &str) -> (r:
    Option<ActionDescriptor>)
    ensures
        r is Some == scoped_descriptor(info@, content_type@, locale@) is Some,
        r matches Some(d) ==> scoped_descriptor(info@, content_type@, locale@) == Some(d@),
{
    match best_match_exec(&info.supported_types, content_type) {
        None => None,
        Some(kind) => {
            let mut d = info.to_descriptor(locale);
            d.action_scope = match kind {
                ActionMatchKind::Specific => "specific".to_owned(),
                ActionMatchKind::General => "general".to_owned(),
            };
            Some(d)
        },
    }
}

/// The descriptors of the actions that apply, in registration order.
pub open spec fn matching_descriptors(
    infos: Seq<InfoView>,
    actual: ContentKind,
    locale: Seq<char>,
) -> Seq<DescriptorView>
    decreases infos.len(),
{
    if infos.len() == 0 {
        Seq::empty()
    } else {
        matching_descriptors(infos.drop_last(), actual, locale) + match scoped_descriptor(
            infos.last(),
            actual,
            locale,
        ) {
            Some(d) => seq![d],
            None => Seq::empty(),
        }
    }
}

/// Lexicographic order of texts by code point (the order of their UTF-8 bytes).
pub open spec fn text_le(a: Seq<char>, b: Seq<char>) -> bool
    decreases a.len(),
{
    if a.len() == 0 {
        true
    } else if b.len() == 0 {
        false
    } else if (a[0] as u32) < (b[0] as u32) {
        true
    } else if (a[0] as u32) > (b[0] as u32) {
        false
    } else {
        text_le(a.drop_first(), b.drop_first())
    }
}

/// Rank of a descriptor's scope: specific actions first.
pub open spec fn scope_rank(d: DescriptorView) -> int {
    if d.action_scope == "specific"@ {
        0
    } else {
        1
    }
}

/// The key by which descriptors are ordered: scope, then whether a model is needed (those that
/// need none first), then the lowercased display name.
pub struct SortKey {
    pub rank: u8,
    pub requires_model: bool,
    pub name: Vec<char>,
}

/// The mathematical value of a sort key.
pub struct KeyView {
    pub rank: int,
    pub requires_model: bool,
    pub name: Seq<char>,
}

impl View for SortKey {
    type V = KeyView;

    open spec fn view(&self) -> KeyView {
        KeyView { rank: self.rank as int, requires_model: self.requires_model, name: self.name@ }
    }
}

/// The sort key of a descriptor.
pub open spec fn key_of(d: DescriptorView) -> KeyView {
    KeyView { rank: scope_rank(d), requires_model: d.requires_model, name: lowercase(d.display_name) }
}

/// `a` sorts no later than `b`.
pub open spec fn key_le(a: KeyView, b: KeyView) -> bool {
    a.rank < b.rank || (a.rank == b.rank && ((!a.requires_model && b.requires_model) || (
    a.requires_model == b.requires_model && text_le(a.name, b.name))))
}

/// `s` with `x` inserted after every element whose key is no later than `x`'s, scanning from
/// the back: the insertion step of a stable sort.
pub open spec fn insert_sorted(x: DescriptorView, s: Seq<DescriptorView>) -> Seq<DescriptorView>
    decreases s.len(),
{
    if s.len() == 0 {
        seq![x]
    } else if key_le(key_of(s.last()), key_of(x)) {
        s.push(x)
    } else {
        insert_sorted(x, s.drop_last()).push(s.last())
    }
}

/// `s` sorted by key, keeping the order of elements with equal keys (as `sort_by_key`).
pub open spec fn stable_sort(s: Seq<DescriptorView>) -> Seq<DescriptorView>
    decreases s.len(),
{
    if s.len() == 0 {
        Seq::empty()
    } else {
        insert_sorted(s.last(), stable_sort(s.drop_last()))
    }
}

/// What `list_descriptors` lists: the descriptors of the actions that apply, sorted by key.
pub open spec fn listed_descriptors(infos: Seq<InfoView>, actual: ContentKind, locale: Seq<char>) -> Seq<
    DescriptorView,
> {
    stable_sort(matching_descriptors(infos, actual, locale))
}

/// Lexicographic comparison of two texts.
pub fn text_le_exec(a: &Vec<char>, b: &Vec<char>) -> (r: bool)
    ensures
        r == text_le(a@, b@),
{
    let mut i: usize = 0;
    assert(a@.skip(0) =~= a@);
    assert(b@.skip(0) =~= b@);
    while i < a.len() && i < b.len()
        invariant
            i <= a@.len(),
            i <= b@.len(),
            text_le(a@, b@) == text_le(a@.skip(i as int), b@.skip(i as int)),
        decreases a@.len() - i,
    {
        let x = a[i] as u32;
        let y = b[i] as u32;
        assert(a@.skip(i as int)[0] == a@[i as int]);
        assert(b@.skip(i as int)[0] == b@[i as int]);
        if x < y {
            return true;
        }
        if x > y {
            return false;
        }
        assert(a@.skip(i as int).drop_first() =~= a@.skip(i + 1));
        assert(b@.skip(i as int).drop_first() =~= b@.skip(i + 1));
        i = i + 1;
    }
    i == a.len()
}

/// Compares two sort keys.
pub fn key_le_exec(a: &SortKey, b: &SortKey) -> (r: bool)
    ensures
        r == key_le(a@, b@),
{
    a.rank < b.rank || (a.rank == b.rank && ((!a.requires_model && b.requires_model) || (
    a.requires_model == b.requires_model && text_le_exec(&a.name, &b.name))))
}

/// The sort key of a descriptor.
pub fn sort_key(d: &ActionDescriptor) -> (r: SortKey)
    ensures
        r@ == key_of(d@),
{
    let rank: u8 = if d.action_scope == "specific".to_owned() {
        0
    } else {
        1
    };
    let lower = to_lowercase(d.display_name.as_str());
    SortKey { rank, requires_model: d.requires_model, name: chars_of(lower.as_str()) }
}

/// Inserting where the backward scan stops is `insert_sorted`.
proof fn lemma_insert_sorted_at(x: DescriptorView, s: Seq<DescriptorView>, j: int)
    requires
        0 <= j <= s.len(),
        forall|k: int| j <= k < s.len() ==> !key_le(key_of(#[trigger] s[k]), key_of(x)),
        j > 0 ==> key_le(key_of(s[j - 1]), key_of(x)),
    ensures
        insert_sorted(x, s) == s.insert(j, x),
    decreases s.len(),
{
    if s.len() == 0 {
        assert(s.insert(j, x) =~= seq![x]);
    } else if j == s.len() {
        assert(s.insert(j, x) =~= s.push(x));
    } else {
        assert(!key_le(key_of(s[s.len() - 1]), key_of(x)));
        lemma_insert_sorted_at(x, s.drop_last(), j);
        assert(s.drop_last().insert(j, x).push(s.last()) =~= s.insert(j, x));
    }
}

/// The views of a list of descriptors.
pub open spec fn descriptor_views(v: Seq<ActionDescriptor>) -> Seq<DescriptorView> {
    Seq::new(v.len(), |i: int| v[i]@)
}

/// Sorts descriptors by key, keeping the order of those with equal keys.
pub fn sort_descriptors(v: Vec<ActionDescriptor>) -> (r: Vec<ActionDescriptor>)
    ensures
        descriptor_views(r@) == stable_sort(descriptor_views(v@)),
{
    let ghost dv = descriptor_views(v@);
    let mut out: Vec<ActionDescriptor> = Vec::new();
    let mut keys: Vec<SortKey> = Vec::new();
    let mut src = v;
    let mut taken: Vec<ActionDescriptor> = Vec::new();
    let n = src.len();
    let mut i: usize = 0;
    assert(dv.take(0) =~= Seq::<DescriptorView>::empty());
    while i < n
        invariant
            i <= n,
            n == dv.len(),
            src@.len() == n - i,
            forall|k: int| 0 <= k < n - i ==> (#[trigger] src@[k])@ == dv[i + k],
            descriptor_views(out@) == stable_sort(dv.take(i as int)),
            keys@.len() == out@.len(),
            forall|k: int| 0 <= k < out@.len() ==> (#[trigger] keys@[k])@ == key_of(out@[k]@),
        decreases n - i,
    {
        let x = src.remove(0);
        assert(x@ == dv[i as int]);
        let kx = sort_key(&x);
        let ghost s = descriptor_views(out@);
        let mut j = out.len();
        while j > 0 && !key_le_exec(&keys[j - 1], &kx)
            invariant
                j <= out@.len(),
                keys@.len() == out@.len(),
                s == descriptor_views(out@),
                kx@ == key_of(x@),
                forall|k: int| 0 <= k < out@.len() ==> (#[trigger] keys@[k])@ == key_of(out@[k]@),
                forall|k: int| j <= k < s.len() ==> !key_le(key_of(#[trigger] s[k]), key_of(x@)),
            decreases j,
        {
            assert(s[j - 1] == out@[j - 1]@);
            j = j - 1;
        }
        proof {
            if j > 0 {
                assert(s[j - 1] == out@[j - 1]@);
            }
            lemma_insert_sorted_at(x@, s, j as int);
            assert(dv.take(i + 1).drop_last() =~= dv.take(i as int));
        }
        out.insert(j, x);
        keys.insert(j, kx);
        assert(descriptor_views(out@) =~= s.insert(j as int, x@));
        i = i + 1;
    }
    assert(dv.take(n as int) =~= dv);
    out
}


/// The views of a list of action descriptions.
pub open spec fn info_views(v: Seq<ActionInfo>) -> Seq<InfoView> {
    Seq::new(v.len(), |i: int| v[i]@)
}

/// The ids of a list of actions.
pub open spec fn ids_of(v: Seq<InfoView>) -> Seq<Seq<char>> {
    Seq::new(v.len(), |i: int| v[i].id)
}

/// The ids in a list of strings, as a set.
pub open spec fn id_set(v: Seq<String>) -> Set<Seq<char>> {
    Set::new(|s: Seq<char>| exists|i: int| 0 <= i < v.len() && (#[trigger] v[i])@ == s)
}

/// The position of the first action with id `id`.
pub open spec fn first_with_id(actions: Seq<InfoView>, id: Seq<char>) -> Option<int>
    decreases actions.len(),
{
    if actions.len() == 0 {
        None
    } else {
        match first_with_id(actions.drop_last(), id) {
            Some(i) => Some(i),
            None => if actions.last().id == id {
                Some(actions.len() - 1)
            } else {
                None
            },
        }
    }
}

/// The actions kept when plugins are reloaded: those whose id is not a plugin id.
pub open spec fn non_plugin_actions(actions: Seq<InfoView>, plugin_ids: Set<Seq<char>>) -> Seq<
    InfoView,
> {
    actions.filter(|a: InfoView| !plugin_ids.contains(a.id))
}

/// The registry of actions, with the ids of those that came from plugins.
pub struct ActionRegistry {
    actions: Vec<ActionInfo>,
    plugin_action_ids: Vec<String>,
}

/// The mathematical value of the registry: its actions in registration order, and the set of
/// plugin ids.
pub struct RegistryView {
    pub actions: Seq<InfoView>,
    pub plugin_ids: Set<Seq<char>>,
}

impl View for ActionRegistry {
    type V = RegistryView;

    closed spec fn view(&self) -> RegistryView {
        RegistryView {
            actions: info_views(self.actions@),
            plugin_ids: id_set(self.plugin_action_ids@),
        }
    }
}

impl ActionRegistry {
    /// An empty registry.
    pub fn new() -> (r: ActionRegistry)
        ensures
            r@.actions == Seq::<InfoView>::empty(),
            r@.plugin_ids == Set::<Seq<char>>::empty(),
    {
        let r = ActionRegistry { actions: Vec::new(), plugin_action_ids: Vec::new() };
        assert(r@.actions =~= Seq::<InfoView>::empty());
        assert(r@.plugin_ids =~= Set::<Seq<char>>::empty());
        r
    }

    /// Registers an action.
    pub fn register(&mut self, action: ActionInfo)
        ensures
            final(self)@.actions == old(self)@.actions.push(action@),
            final(self)@.plugin_ids == old(self)@.plugin_ids,
    {
        let ghost a = action@;
        self.actions.push(action);
        assert(self@.actions =~= old(self)@.actions.push(a));
    }

    /// Registers an action that came from a plugin, and records its id as a plugin id.
    pub fn register_plugin(&mut self, action: ActionInfo)
        ensures
            final(self)@.actions == old(self)@.actions.push(action@),
            final(self)@.plugin_ids == old(self)@.plugin_ids.insert(action@.id),
    {
        let ghost a = action@;
        self.plugin_action_ids.push(action.id.clone());
        self.actions.push(action);
        assert(self@.actions =~= old(self)@.actions.push(a));
        assert(self@.plugin_ids =~= old(self)@.plugin_ids.insert(a.id)) by {
            let ids = self.plugin_action_ids@;
            assert forall|s: Seq<char>| self@.plugin_ids.contains(s) implies old(
                self,
            )@.plugin_ids.insert(a.id).contains(s) by {
                let i = choose|i: int| 0 <= i < ids.len() && (#[trigger] ids[i])@ == s;
                if i < ids.len() - 1 {
                    assert(old(self).plugin_action_ids@[i] == ids[i]);
                }
            }
            assert forall|s: Seq<char>| old(self)@.plugin_ids.insert(a.id).contains(
                s,
            ) implies self@.plugin_ids.contains(s) by {
                if s == a.id {
                    assert(ids[ids.len() - 1]@ == s);
                } else {
                    let i = choose|i: int|
                        0 <= i < old(self).plugin_action_ids@.len() && (#[trigger] old(
                            self,
                        ).plugin_action_ids@[i])@ == s;
                    assert(ids[i]@ == s);
                }
            }
        }
    }

    /// Whether `id` is a plugin id.
    fn is_plugin_id(&self, id: &String) -> (r: bool)
        ensures
            r == self@.plugin_ids.contains(id@),
    {
        let mut i: usize = 0;
        while i < self.plugin_action_ids.len()
            invariant
                i <= self.plugin_action_ids@.len(),
                forall|k: int|
                    0 <= k < i ==> (#[trigger] self.plugin_action_ids@[k])@ != id@,
            decreases self.plugin_action_ids@.len() - i,
        {
            if self.plugin_action_ids[i] == *id {
                return true;
            }
            i = i + 1;
        }
        false
    }

    /// The descriptors of the actions that apply to `content_type`, in the locale's language:
    /// specific ones before general ones, then those that need no model first, then by
    /// lowercased display name; actions that tie keep their registration order.
    pub fn list_descriptors(&self, content_type: &ContentType, locale: &str) -> (r: Vec<
        ActionDescriptor,
    >)
        ensures
            descriptor_views(r@) == listed_descriptors(self@.actions, content_type@, locale@),
    {
        let ghost infos = self@.actions;
        let mut found: Vec<ActionDescriptor> = Vec::new();
        let mut i: usize = 0;
        while i < self.actions.len()
            invariant
                i <= self.actions@.len(),
                infos == info_views(self.actions@),
                descriptor_views(found@) == matching_descriptors(
                    infos.take(i as int),
                    content_type@,
                    locale@,
                ),
            decreases self.actions@.len() - i,
        {
            assert(infos.take(i + 1).drop_last() =~= infos.take(i as int));
            assert(infos.take(i + 1).last() == self.actions@[i as int]@);
            let ghost before = descriptor_views(found@);
            match descriptor_for_action(&self.actions[i], content_type, locale) {
                Some(d) => {
                    let ghost dv = d@;
                    found.push(d);
                    assert(descriptor_views(found@) =~= before + seq![dv]);
                },
                None => {
                    assert(before + Seq::<DescriptorView>::empty() =~= before);
                },
            }
            i = i + 1;
        }
        assert(infos.take(self.actions@.len() as int) =~= infos);
        sort_descriptors(found)
    }

    /// The descriptors of all actions, in registration order, in the locale's language.
    pub fn list_all_descriptors(&self, locale: &str) -> (r: Vec<ActionDescriptor>)
        ensures
            descriptor_views(r@) == self@.actions.map_values(
                |a: InfoView| descriptor_of(a, locale@),
            ),
    {
        let mut out: Vec<ActionDescriptor> = Vec::new();
        let mut i: usize = 0;
        while i < self.actions.len()
            invariant
                i <= self.actions@.len(),
                out@.len() == i,
                forall|k: int|
                    0 <= k < i ==> (#[trigger] out@[k])@ == descriptor_of(
                        self.actions@[k]@,
                        locale@,
                    ),
            decreases self.actions@.len() - i,
        {
            out.push(self.actions[i].to_descriptor(locale));
            i = i + 1;
        }
        assert(descriptor_views(out@) =~= self@.actions.map_values(
            |a: InfoView| descriptor_of(a, locale@),
        ));
        out
    }

    /// The first action with id `id`.
    pub fn get_action(&self, id: &str) -> (r: Option<&ActionInfo>)
        ensures
            r is Some == first_with_id(self@.actions, id@) is Some,
            r matches Some(a) ==> a@ == self@.actions[first_with_id(self@.actions, id@)->0],
    {
        let ghost infos = self@.actions;
        let wanted = id.to_owned();
        let mut i: usize = 0;
        while i < self.actions.len()
            invariant
                i <= self.actions@.len(),
                infos == info_views(self.actions@),
                wanted@ == id@,
                first_with_id(infos.take(i as int), id@) is None,
            decreases self.actions@.len() - i,
        {
            assert(infos.take(i + 1).drop_last() =~= infos.take(i as int));
            if self.actions[i].id == wanted {
                assert(first_with_id(infos.take(i + 1), id@) == Some(i as int));
                proof {
                    lemma_first_with_id_prefix(infos, id@, i + 1);
                }
                return Some(&self.actions[i]);
            }
            i = i + 1;
        }
        assert(infos.take(self.actions@.len() as int) =~= infos);
        None
    }

    /// Replaces the plugin actions: drops every action whose id is a plugin id, then registers
    /// `new_plugins` as plugin actions, in order.
    pub fn reload_plugins(&mut self, new_plugins: Vec<ActionInfo>)
        ensures
            final(self)@.actions == non_plugin_actions(old(self)@.actions, old(self)@.plugin_ids)
                + info_views(new_plugins@),
            final(self)@.plugin_ids == ids_of(info_views(new_plugins@)).to_set(),
    {
        let ghost old_actions = self@.actions;
        let ghost old_ids = self@.plugin_ids;
        let mut kept: Vec<ActionInfo> = Vec::new();
        let mut i: usize = 0;
        while i < self.actions.len()
            invariant
                i <= self.actions@.len(),
                old_actions == info_views(self.actions@),
                old_ids == self@.plugin_ids,
                info_views(kept@) == non_plugin_actions(old_actions.take(i as int), old_ids),
            decreases self.actions@.len() - i,
        {
            let ghost before = info_views(kept@);
            assert(old_actions.take(i + 1) =~= old_actions.take(i as int).push(
                self.actions@[i as int]@,
            ));
            proof {
                reveal(Seq::filter);
                assert(old_actions.take(i + 1).drop_last() =~= old_actions.take(i as int));
            }
            if !self.is_plugin_id(&self.actions[i].id) {
                let a = self.actions[i].duplicate();
                let ghost av = a@;
                kept.push(a);
                assert(info_views(kept@) =~= before.push(av));
            }
            i = i + 1;
        }
        assert(old_actions.take(self.actions@.len() as int) =~= old_actions);
        let ghost kept_view = info_views(kept@);
        let ghost plugins = info_views(new_plugins@);
        let mut ids: Vec<String> = Vec::new();
        let mut j: usize = 0;
        while j < new_plugins.len()
            invariant
                j <= new_plugins@.len(),
                plugins == info_views(new_plugins@),
                info_views(kept@) == kept_view + plugins.take(j as int),
                ids@.len() == j,
                forall|k: int| 0 <= k < j ==> (#[trigger] ids@[k])@ == plugins[k].id,
            decreases new_plugins@.len() - j,
        {
            let a = new_plugins[j].duplicate();
            ids.push(a.id.clone());
            let ghost av = a@;
            let ghost before = info_views(kept@);
            kept.push(a);
            assert(info_views(kept@) =~= before.push(av));
            assert(plugins.take(j + 1) =~= plugins.take(j as int).push(av));
            j = j + 1;
        }
        assert(plugins.take(new_plugins@.len() as int) =~= plugins);
        self.actions = kept;
        self.plugin_action_ids = ids;
        assert(self@.plugin_ids =~= ids_of(plugins).to_set()) by {
            assert forall|s: Seq<char>| self@.plugin_ids.contains(s) implies ids_of(
                plugins,
            ).contains(s) by {
                let k = choose|k: int|
                    0 <= k < self.plugin_action_ids@.len() && (#[trigger] self.plugin_action_ids@[k])@
                        == s;
                assert(ids_of(plugins)[k] == s);
            }
            assert forall|s: Seq<char>| ids_of(plugins).contains(s) implies self@.plugin_ids.contains(
                s,
            ) by {
                let k = choose|k: int| 0 <= k < plugins.len() && (#[trigger] ids_of(plugins)[k]) == s;
                assert(self.plugin_action_ids@[k]@ == s);
            }
        }
    }
}

/// A match within a prefix is the first match of the whole list.
proof fn lemma_first_with_id_prefix(actions: Seq<InfoView>, id: Seq<char>, n: int)
    requires
        0 <= n <= actions.len(),
        first_with_id(actions.take(n), id) is Some,
    ensures
        first_with_id(actions, id) == first_with_id(actions.take(n), id),
    decreases actions.len(),
{
    if n < actions.len() {
        assert(actions.drop_last().take(n) =~= actions.take(n));
        lemma_first_with_id_prefix(actions.drop_last(), id, n);
    } else {
        assert(actions.take(n) =~= actions);
    }
}


/// `text_le` is total.
pub proof fn lemma_text_le_total(a: Seq<char>, b: Seq<char>)
    ensures
        text_le(a, b) || text_le(b, a),
    decreases a.len(),
{
    if a.len() > 0 && b.len() > 0 && (a[0] as u32) == (b[0] as u32) {
        lemma_text_le_total(a.drop_first(), b.drop_first());
    }
}

/// `text_le` is transitive.
pub proof fn lemma_text_le_trans(a: Seq<char>, b: Seq<char>, c: Seq<char>)
    requires
        text_le(a, b),
        text_le(b, c),
    ensures
        text_le(a, c),
    decreases a.len(),
{
    if a.len() > 0 && b.len() > 0 && c.len() > 0 && (a[0] as u32) == (b[0] as u32) && (b[0] as u32)
        == (c[0] as u32) {
        lemma_text_le_trans(a.drop_first(), b.drop_first(), c.drop_first());
    }
}

/// `key_le` is total.
pub proof fn lemma_key_le_total(a: KeyView, b: KeyView)
    ensures
        key_le(a, b) || key_le(b, a),
{
    lemma_text_le_total(a.name, b.name);
}

/// `key_le` is transitive.
pub proof fn lemma_key_le_trans(a: KeyView, b: KeyView, c: KeyView)
    requires
        key_le(a, b),
        key_le(b, c),
    ensures
        key_le(a, c),
{
    if a.rank == b.rank && b.rank == c.rank && a.requires_model == b.requires_model
        && b.requires_model == c.requires_model {
        lemma_text_le_trans(a.name, b.name, c.name);
    }
}

/// The descriptors appear in key order.
pub open spec fn sorted_by_key(s: Seq<DescriptorView>) -> bool {
    forall|i: int, j: int| 0 <= i < j < s.len() ==> key_le(key_of(s[i]), key_of(s[j]))
}

/// Inserting adds exactly the one element.
pub proof fn lemma_insert_sorted_multiset(x: DescriptorView, t: Seq<DescriptorView>)
    ensures
        insert_sorted(x, t).to_multiset() == t.to_multiset().insert(x),
    decreases t.len(),
{
    broadcast use vstd::seq_lib::group_to_multiset_ensures;

    if t.len() == 0 {
        assert(seq![x] =~= t.push(x));
    } else if key_le(key_of(t.last()), key_of(x)) {
    } else {
        lemma_insert_sorted_multiset(x, t.drop_last());
        assert(t.drop_last().push(t.last()) =~= t);
        assert(t.to_multiset() =~= t.drop_last().to_multiset().insert(t.last()));
        assert(insert_sorted(x, t).to_multiset() =~= t.to_multiset().insert(x));
    }
}

/// Inserting into a sorted list keeps it sorted.
pub proof fn lemma_insert_sorted_sorted(x: DescriptorView, t: Seq<DescriptorView>)
    requires
        sorted_by_key(t),
    ensures
        sorted_by_key(insert_sorted(x, t)),
    decreases t.len(),
{
    broadcast use vstd::seq_lib::group_to_multiset_ensures;

    if t.len() == 0 {
    } else if key_le(key_of(t.last()), key_of(x)) {
        let r = t.push(x);
        assert forall|i: int, j: int| 0 <= i < j < r.len() implies key_le(
            key_of(r[i]),
            key_of(r[j]),
        ) by {
            if j == t.len() && i < t.len() - 1 {
                lemma_key_le_trans(key_of(t[i]), key_of(t.last()), key_of(x));
            }
        }
    } else {
        let t2 = t.drop_last();
        lemma_insert_sorted_sorted(x, t2);
        lemma_insert_sorted_multiset(x, t2);
        let p = insert_sorted(x, t2);
        let r = p.push(t.last());
        lemma_key_le_total(key_of(t.last()), key_of(x));
        assert forall|i: int, j: int| 0 <= i < j < r.len() implies key_le(
            key_of(r[i]),
            key_of(r[j]),
        ) by {
            if j == p.len() {
                let e = p[i];
                assert(p.contains(e));
                assert(p.to_multiset().count(e) > 0);
                if e != x {
                    assert(t2.to_multiset().count(e) > 0);
                    assert(t2.contains(e));
                    let m = choose|m: int| 0 <= m < t2.len() && t2[m] == e;
                    assert(t[m] == e);
                }
            }
        }
    }
}

/// The stable sort is sorted and holds the same descriptors.
pub proof fn lemma_stable_sort(s: Seq<DescriptorView>)
    ensures
        sorted_by_key(stable_sort(s)),
        stable_sort(s).to_multiset() == s.to_multiset(),
    decreases s.len(),
{
    broadcast use vstd::seq_lib::group_to_multiset_ensures;

    if s.len() > 0 {
        lemma_stable_sort(s.drop_last());
        lemma_insert_sorted_sorted(s.last(), stable_sort(s.drop_last()));
        lemma_insert_sorted_multiset(s.last(), stable_sort(s.drop_last()));
        assert(s.drop_last().push(s.last()) =~= s);
    }
}

/// The actions offered for some content are ordered: every specific action comes before every
/// general one, and within a scope those that need no model come first.
pub proof fn law_listing_is_ordered(infos: Seq<InfoView>, actual: ContentKind, locale: Seq<char>)
    ensures
        sorted_by_key(listed_descriptors(infos, actual, locale)),
        forall|i: int, j: int|
            0 <= i < j < listed_descriptors(infos, actual, locale).len() ==> scope_rank(
                #[trigger] listed_descriptors(infos, actual, locale)[i],
            ) <= scope_rank(#[trigger] listed_descriptors(infos, actual, locale)[j]),
{
    lemma_stable_sort(matching_descriptors(infos, actual, locale));
    let r = listed_descriptors(infos, actual, locale);
    assert forall|i: int, j: int| 0 <= i < j < r.len() implies scope_rank(#[trigger] r[i])
        <= scope_rank(#[trigger] r[j]) by {
        assert(key_le(key_of(r[i]), key_of(r[j])));
    }
}

/// The actions offered for some content are exactly those that apply to it: sorting neither
/// drops nor adds a descriptor.
pub proof fn law_listing_is_permutation(infos: Seq<InfoView>, actual: ContentKind, locale: Seq<char>)
    ensures
        listed_descriptors(infos, actual, locale).to_multiset() == matching_descriptors(
            infos,
            actual,
            locale,
        ).to_multiset(),
{
    lemma_stable_sort(matching_descriptors(infos, actual, locale));
}

/// Reloading the same plugins twice leaves the registry as one reload does, provided no
/// action that survives a reload shares an id with a plugin.
pub proof fn law_reload_idempotent(
    actions: Seq<InfoView>,
    plugin_ids: Set<Seq<char>>,
    plugins: Seq<InfoView>,
)
    requires
        forall|i: int|
            0 <= i < non_plugin_actions(actions, plugin_ids).len() ==> !ids_of(plugins).to_set().contains(
                (#[trigger] non_plugin_actions(actions, plugin_ids)[i]).id,
            ),
    ensures
        ({
            let once = non_plugin_actions(actions, plugin_ids) + plugins;
            let twice = non_plugin_actions(once, ids_of(plugins).to_set()) + plugins;
            twice == once
        }),
{
    let kept = non_plugin_actions(actions, plugin_ids);
    let ids = ids_of(plugins).to_set();
    let once = kept + plugins;
    lemma_filter_keeps_all(kept, ids);
    assert forall|i: int| 0 <= i < plugins.len() implies ids.contains((#[trigger] plugins[i]).id) by {
        assert(ids_of(plugins)[i] == plugins[i].id);
        assert(ids_of(plugins).contains(plugins[i].id));
    }
    lemma_filter_drops_all(plugins, ids);
    lemma_filter_append(kept, plugins, ids);
    assert(non_plugin_actions(once, ids) =~= kept);
}

/// Filtering keeps a list whose ids are all outside the set.
proof fn lemma_filter_keeps_all(s: Seq<InfoView>, ids: Set<Seq<char>>)
    requires
        forall|i: int| 0 <= i < s.len() ==> !ids.contains((#[trigger] s[i]).id),
    ensures
        non_plugin_actions(s, ids) == s,
    decreases s.len(),
{
    reveal(Seq::filter);
    if s.len() > 0 {
        lemma_filter_keeps_all(s.drop_last(), ids);
        assert(s.drop_last().push(s.last()) =~= s);
    }
}

/// Filtering drops a list whose ids are all in the set.
proof fn lemma_filter_drops_all(s: Seq<InfoView>, ids: Set<Seq<char>>)
    requires
        forall|i: int| 0 <= i < s.len() ==> ids.contains((#[trigger] s[i]).id),
    ensures
        non_plugin_actions(s, ids) == Seq::<InfoView>::empty(),
    decreases s.len(),
{
    reveal(Seq::filter);
    if s.len() > 0 {
        lemma_filter_drops_all(s.drop_last(), ids);
    }
}

/// Filtering distributes over concatenation.
proof fn lemma_filter_append(a: Seq<InfoView>, b: Seq<InfoView>, ids: Set<Seq<char>>)
    ensures
        non_plugin_actions(a + b, ids) == non_plugin_actions(a, ids) + non_plugin_actions(b, ids),
{
    let pred = |x: InfoView| !ids.contains(x.id);
    Seq::filter_distributes_over_add(a, b, pred);
}

/// An action always applies, as specific, to content of a type it supports; besides that,
/// a supported type matches only content of the same type (code of any language, tables of
/// any format), and plain-text actions apply, as general, to arithmetic.
pub proof fn law_match_kind(supported: ContentKind, actual: ContentKind)
    ensures
        match_kind(actual, actual) == Some(ActionMatchKind::Specific),
        match_kind(ContentKind::PlainText, ContentKind::MathExpression) == Some(ActionMatchKind::General),
        (supported is Code && actual is Code) ==> match_kind(supported, actual) == Some(ActionMatchKind::Specific),
        (supported is TableData && actual is TableData) ==> match_kind(supported, actual) == Some(ActionMatchKind::Specific),
        match_kind(supported, actual) == Some(ActionMatchKind::General) ==> (supported is PlainText && actual is MathExpression),
        match_kind(supported, actual) is Some ==> supported == actual || (supported is Code && actual is Code)
            || (supported is TableData && actual is TableData) || (supported is PlainText && actual is MathExpression),
{
}

/// A descriptor that some action gives for content appears among the matching descriptors.
proof fn lemma_scoped_is_matching(infos: Seq<InfoView>, actual: ContentKind, locale: Seq<char>, i: int)
    requires
        0 <= i < infos.len(),
        scoped_descriptor(infos[i], actual, locale) is Some,
    ensures
        matching_descriptors(infos, actual, locale).contains(scoped_descriptor(infos[i], actual, locale)->0),
    decreases infos.len(),
{
    let d = scoped_descriptor(infos[i], actual, locale)->0;
    let prev = infos.drop_last();
    if i == infos.len() - 1 {
        let m = matching_descriptors(infos, actual, locale);
        assert(m == matching_descriptors(prev, actual, locale) + seq![d]);
        assert(m[m.len() - 1] == d);
    } else {
        assert(prev[i] == infos[i]);
        lemma_scoped_is_matching(prev, actual, locale, i);
        let mp = matching_descriptors(prev, actual, locale);
        let j = choose|j: int| 0 <= j < mp.len() && mp[j] == d;
        let extra = match scoped_descriptor(infos.last(), actual, locale) {
            Some(e) => seq![e],
            None => Seq::<DescriptorView>::empty(),
        };
        assert(matching_descriptors(infos, actual, locale) == mp + extra);
        assert((mp + extra)[j] == d);
    }
}

/// Every registered action that supports the content's own type is offered for that content,
/// with the scope "specific".
pub proof fn law_supported_type_is_offered(infos: Seq<InfoView>, actual: ContentKind, locale: Seq<char>, i: int)
    requires
        0 <= i < infos.len(),
        infos[i].supported_types.contains(actual),
    ensures
        exists|k: int|
            0 <= k < listed_descriptors(infos, actual, locale).len()
                && (#[trigger] listed_descriptors(infos, actual, locale)[k]).id == infos[i].id
                && listed_descriptors(infos, actual, locale)[k].action_scope == "specific"@,
{
    law_match_kind(actual, actual);
    let types = infos[i].supported_types;
    let w = choose|w: int| 0 <= w < types.len() && types[w] == actual;
    assert(match_kind(types[w], actual) == Some(ActionMatchKind::Specific));
    assert(best_match(types, actual) == Some(ActionMatchKind::Specific));
    let d = scoped_descriptor(infos[i], actual, locale)->0;
    assert(d.id == infos[i].id);
    assert(d.action_scope == "specific"@);
    lemma_scoped_is_matching(infos, actual, locale, i);
    law_listing_is_permutation(infos, actual, locale);
    let m = matching_descriptors(infos, actual, locale);
    let l = listed_descriptors(infos, actual, locale);
    vstd::seq_lib::to_multiset_contains(m, d);
    vstd::seq_lib::to_multiset_contains(l, d);
    assert(l.contains(d));
    let k = choose|k: int| 0 <= k < l.len() && l[k] == d;
    assert(l[k].id == infos[i].id);
}

} // verus!
