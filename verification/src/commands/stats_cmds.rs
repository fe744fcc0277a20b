//! The statistics command: the overview with each action under its display name.
use vstd::prelude::*;
use crate::actions::registry::{ActionRegistry, descriptor_views};
use crate::actions::traits::{ActionDescriptor, DescriptorView, InfoView, descriptor_of};
use crate::storage::action_history::{ActionStats, ActionStatsView, ActionUsageStat, ActionUsageStatView};
use crate::text::{chars_of, starts_with, starts_with_chars};

verus! {

/// The display name the last descriptor with this id gives, if any.
pub open spec fn descriptor_name(ds: Seq<DescriptorView>, id: Seq<char>) -> Option<Seq<char>>
    decreases ds.len(),
{
    if ds.len() == 0 {
        None
    } else if ds.last().id == id {
        Some(ds.last().display_name)
    } else {
        descriptor_name(ds.drop_last(), id)
    }
}

/// The display name of an action that is not registered: custom actions have one.
pub open spec fn special_name(id: Seq<char>, locale: Seq<char>) -> Option<Seq<char>> {
    if id == "custom_prompt"@ {
        Some(if starts_with(locale, "en"@) { "Custom Action"@ } else { "自定义操作"@ })
    } else {
        None
    }
}

/// A usage entry under its display name: the registered one, else the special one, else
/// the name it had.
pub open spec fn named_usage(a: ActionUsageStatView, ds: Seq<DescriptorView>, locale: Seq<char>) -> ActionUsageStatView {
    ActionUsageStatView {
        action_id: a.action_id,
        display_name: match descriptor_name(ds, a.action_id) {
            Some(n) => n,
            None => match special_name(a.action_id, locale) {
                Some(n) => n,
                None => a.display_name,
            },
        },
        count: a.count,
        total_duration_ms: a.total_duration_ms,
    }
}

/// The display name of `id` among the descriptors, if one has it.
fn find_descriptor_name(ds: &Vec<ActionDescriptor>, id: &String) -> (r: Option<String>)
    ensures
        crate::text::opt_text(r) == descriptor_name(descriptor_views(ds@), id@),
{
    let ghost all = descriptor_views(ds@);
    let mut i: usize = ds.len();
    assert(all.take(i as int) == all);
    while i > 0
        invariant
            i <= ds@.len(),
            all == descriptor_views(ds@),
            descriptor_name(all, id@) == descriptor_name(all.take(i as int), id@),
        decreases i,
    {
        assert(all.take(i as int).drop_last() == all.take(i as int - 1));
        assert(all.take(i as int).last() == all[i as int - 1]);
        if ds[i - 1].id == *id {
            return Some(ds[i - 1].display_name.clone());
        }
        i = i - 1;
    }
    None
}

/// The overview with each of the most used actions under its display name.
pub fn apply_display_names(stats: ActionStats, descriptors: &Vec<ActionDescriptor>, locale: &str) -> (r: ActionStats)
    ensures
        r@.total_count == stats@.total_count,
        r@.total_duration_ms == stats@.total_duration_ms,
        r@.daily_trend == stats@.daily_trend,
        r@.top_actions.len() == stats@.top_actions.len(),
        forall|i: int| 0 <= i < r@.top_actions.len() ==> #[trigger] r@.top_actions[i]
            == named_usage(stats@.top_actions[i], descriptor_views(descriptors@), locale@),
{
    proof {
        reveal_strlit("en");
    }
    let english = starts_with_chars(&chars_of(locale), &chars_of("en"));
    let ActionStats { total_count, total_duration_ms, top_actions, daily_trend } = stats;
    let ghost before = top_actions@;
    let mut named: Vec<ActionUsageStat> = Vec::new();
    let n = top_actions.len();
    let mut i: usize = 0;
    while i < n
        invariant
            n == top_actions@.len(),
            before == top_actions@,
            english == starts_with(locale@, "en"@),
            i <= n,
            named@.len() == i,
            forall|k: int| 0 <= k < i ==> #[trigger] named@[k]@
                == named_usage(before[k]@, descriptor_views(descriptors@), locale@),
        decreases n - i,
    {
        let a = &top_actions[i];
        let found = find_descriptor_name(descriptors, &a.action_id);
        let display_name = match found {
            Some(name) => name,
            None => {
                if crate::text::str_eq(a.action_id.as_str(), "custom_prompt") {
                    if english { "Custom Action".to_owned() } else { "自定义操作".to_owned() }
                } else {
                    a.display_name.clone()
                }
            },
        };
        named.push(ActionUsageStat {
            action_id: a.action_id.clone(),
            display_name,
            count: a.count,
            total_duration_ms: a.total_duration_ms,
        });
        i = i + 1;
    }
    ActionStats { total_count, total_duration_ms, top_actions: named, daily_trend }
}

/// The statistics overview for a locale (Chinese when none is given), from the overview
/// read from the history and the registered actions.
pub fn get_stats(locale: Option<String>, stats: Result<ActionStats, String>, registry: &ActionRegistry) -> (r: Result<ActionStats, String>)
    ensures
        match stats {
            Err(e) => r matches Err(m) && m@ == e@,
            Ok(s) => r matches Ok(t) && {
                let loc = match locale { Some(l) => l@, None => "zh-CN"@ };
                let ds = registry@.actions.map_values(|a: InfoView| descriptor_of(a, loc));
                &&& t@.total_count == s@.total_count
                &&& t@.total_duration_ms == s@.total_duration_ms
                &&& t@.daily_trend == s@.daily_trend
                &&& t@.top_actions.len() == s@.top_actions.len()
                &&& forall|i: int| 0 <= i < t@.top_actions.len() ==> #[trigger] t@.top_actions[i]
                    == named_usage(s@.top_actions[i], ds, loc)
            },
        },
{
    let loc = match locale {
        Some(l) => l,
        None => "zh-CN".to_owned(),
    };
    match stats {
        Err(e) => Err(e),
        Ok(s) => {
            let ds = registry.list_all_descriptors(loc.as_str());
            Ok(apply_display_names(s, &ds, loc.as_str()))
        },
    }
}

} // verus!
