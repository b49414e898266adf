//! Media sessions: which source the island follows, which applications the
//! user lets it follow, and how those applications are named.
use crate::text::str_eq;
use vstd::prelude::*;
use vstd::string::StrSliceExecFns;

verus! {

pub open spec fn strings_view(v: Seq<String>) -> Seq<Seq<char>> {
    v.map_values(|s: String| s@)
}

fn contains_string(list: &Vec<String>, item: &String) -> (found: bool)
    ensures
        found == strings_view(list@).contains(item@),
{
    let mut i: usize = 0;
    while i < list.len()
        invariant
            i <= list@.len(),
            forall|j: int| 0 <= j < i ==> list@[j]@ != item@,
        decreases list@.len() - i,
    {
        if str_eq(list[i].as_str(), item.as_str()) {
            assert(strings_view(list@)[i as int] == item@);
            return true;
        }
        i += 1;
    }
    assert forall|j: int| 0 <= j < strings_view(list@).len() implies strings_view(list@)[j] != item@ by {
        assert(strings_view(list@)[j] == list@[j]@);
    }
    false
}

/// Keeps every entry other than `app`.
pub open spec fn other_than(app: Seq<char>) -> spec_fn(Seq<char>) -> bool {
    |a: Seq<char>| a != app
}

/// The list after toggling `app`: removed everywhere when it was listed,
/// appended otherwise.
pub open spec fn toggled_apps(apps: Seq<Seq<char>>, app: Seq<char>) -> Seq<Seq<char>> {
    if apps.contains(app) {
        apps.filter(other_than(app))
    } else {
        apps.push(app)
    }
}

/// The known applications after enabling `app`: it is remembered once.
pub open spec fn remembered_apps(known: Seq<Seq<char>>, app: Seq<char>) -> Seq<Seq<char>> {
    if known.contains(app) {
        known
    } else {
        known.push(app)
    }
}

/// A click on a media application row: the island stops following it when
/// it did, and starts following (and remembers) it otherwise.
pub fn toggle_media_app(smtc_apps: &mut Vec<String>, known_apps: &mut Vec<String>, app: &String)
    ensures
        strings_view(final(smtc_apps)@) == toggled_apps(strings_view(old(smtc_apps)@), app@),
        strings_view(old(smtc_apps)@).contains(app@) ==> final(known_apps)@ == old(known_apps)@,
        !strings_view(old(smtc_apps)@).contains(app@) ==> strings_view(final(known_apps)@)
            == remembered_apps(strings_view(old(known_apps)@), app@),
{
    let ghost before = strings_view(smtc_apps@);
    if contains_string(smtc_apps, app) {
        let mut kept: Vec<String> = Vec::new();
        let mut i: usize = 0;
        while i < smtc_apps.len()
            invariant
                before == strings_view(smtc_apps@),
                i <= smtc_apps@.len(),
                strings_view(kept@) == before.take(i as int).filter(other_than(app@)),
            decreases smtc_apps@.len() - i,
        {
            let ghost prefix = before.take(i as int);
            assert(before.take(i + 1) =~= prefix.push(before[i as int]));
            proof {
                prefix.lemma_filter_push(before[i as int], other_than(app@));
            }
            if !str_eq(smtc_apps[i].as_str(), app.as_str()) {
                kept.push(smtc_apps[i].clone());
                assert(strings_view(kept@) =~= strings_view(kept@.drop_last()).push(smtc_apps@[i as int]@));
            }
            i += 1;
        }
        assert(before.take(smtc_apps@.len() as int) =~= before);
        *smtc_apps = kept;
    } else {
        smtc_apps.push(app.clone());
        assert(strings_view(smtc_apps@) =~= before.push(app@));
        let ghost known = strings_view(known_apps@);
        if !contains_string(known_apps, app) {
            known_apps.push(app.clone());
            assert(strings_view(known_apps@) =~= known.push(app@));
        }
    }
}

/// Switching an application on and then off again restores the list of
/// followed applications.
pub proof fn lemma_toggle_twice_restores(apps: Seq<Seq<char>>, app: Seq<char>)
    requires
        !apps.contains(app),
    ensures
        toggled_apps(toggled_apps(apps, app), app) == apps,
{
    let pushed = apps.push(app);
    assert(pushed[apps.len() as int] == app);
    assert(pushed.contains(app));
    apps.lemma_filter_push(app, other_than(app));
    lemma_filter_keeps_all(apps, app);
}

proof fn lemma_filter_keeps_all(apps: Seq<Seq<char>>, app: Seq<char>)
    requires
        !apps.contains(app),
    ensures
        apps.filter(other_than(app)) == apps,
    decreases apps.len(),
{
    let f = other_than(app);
    if apps.len() > 0 {
        let init = apps.drop_last();
        assert(!init.contains(app)) by {
            if init.contains(app) {
                let k = choose|k: int| 0 <= k < init.len() && init[k] == app;
                assert(apps[k] == app);
            }
        }
        lemma_filter_keeps_all(init, app);
        init.lemma_filter_push(apps.last(), f);
        assert(init.push(apps.last()) =~= apps);
        assert(apps.last() != app) by {
            assert(apps[apps.len() - 1] == apps.last());
        }
    } else {
        reveal(Seq::filter);
    }
}

/// The list after adding each application of `batch` that it does not hold
/// yet, in batch order; an application repeated in the batch is added once.
pub open spec fn merged_apps(list: Seq<Seq<char>>, batch: Seq<Seq<char>>) -> Seq<Seq<char>>
    decreases batch.len(),
{
    if batch.len() == 0 {
        list
    } else {
        let before = merged_apps(list, batch.drop_last());
        if before.contains(batch.last()) {
            before
        } else {
            before.push(batch.last())
        }
    }
}

/// Adds each newly seen application to the detected list, in order, once;
/// answers whether any was added.
pub fn merge_detected_apps(detected: &mut Vec<String>, apps: &Vec<String>) -> (changed: bool)
    ensures
        strings_view(final(detected)@) == merged_apps(strings_view(old(detected)@), strings_view(apps@)),
        changed == (final(detected)@.len() > old(detected)@.len()),
{
    let ghost original = strings_view(detected@);
    let ghost batch = strings_view(apps@);
    let mut changed = false;
    let mut i: usize = 0;
    while i < apps.len()
        invariant
            i <= apps@.len(),
            batch == strings_view(apps@),
            strings_view(detected@) == merged_apps(original, batch.take(i as int)),
            original.len() <= detected@.len(),
            changed == (detected@.len() > original.len()),
        decreases apps@.len() - i,
    {
        let ghost before = strings_view(detected@);
        assert(batch.take(i + 1).drop_last() =~= batch.take(i as int));
        assert(batch.take(i + 1).last() == apps@[i as int]@);
        if !contains_string(detected, &apps[i]) {
            detected.push(apps[i].clone());
            assert(strings_view(detected@) =~= before.push(apps@[i as int]@));
            changed = true;
        }
        i += 1;
    }
    assert(batch.take(apps@.len() as int) =~= batch);
    changed
}

/// The name shown for a media application: its id up to the first `!`.
pub open spec fn app_label_spec(app: Seq<char>) -> Seq<char> {
    match app.index_of_first('!') {
        Some(i) => app.subrange(0, i),
        None => app,
    }
}

/// The name shown for a media application.
pub fn app_label(app: &str) -> (label: String)
    ensures
        label@ == app_label_spec(app@),
{
    let n = app.unicode_len();
    let mut i: usize = 0;
    while i < n
        invariant
            n == app@.len(),
            i <= n,
            forall|j: int| 0 <= j < i ==> app@[j] != '!',
        decreases n - i,
    {
        if app.get_char(i) == '!' {
            proof {
                app@.index_of_first_ensures('!');
            }
            return app.substring_char(0, i).to_owned();
        }
        i += 1;
    }
    proof {
        app@.index_of_first_ensures('!');
        assert(!app@.contains('!'));
    }
    app.to_owned()
}

/// Media published by a plugin, which takes precedence over the system's
/// media session.
#[derive(Debug)]
pub struct PluginMediaSource {
    pub resource_id: u64,
    pub available_controls: u32,
    pub title: String,
}

/// Whether a media control can be used: a plugin source says so by its
/// control bits, the system session whenever it is enabled.
pub fn media_control_available(source: &Option<PluginMediaSource>, smtc_enabled: bool, control: u32) -> (available: bool)
    ensures
        available == match *source {
            Some(s) => s.available_controls & control != 0,
            None => smtc_enabled,
        },
{
    match source {
        Some(s) => s.available_controls & control != 0,
        None => smtc_enabled,
    }
}

/// Whether something is playing: a plugin source with a title, or an enabled
/// system session with a title.
pub fn media_active(source: &Option<PluginMediaSource>, smtc_enabled: bool, smtc_title: &str) -> (active: bool)
    ensures
        active == match *source {
            Some(s) => s.title@.len() > 0,
            None => smtc_enabled && smtc_title@.len() > 0,
        },
{
    match source {
        Some(s) => !s.title.as_str().is_empty(),
        None => smtc_enabled && !smtc_title.is_empty(),
    }
}

/// The application whose audio the island visualises: the system session's
/// source, unless a plugin provides the media or the session is disabled.
pub fn audio_target_app_id<'a>(
    source: &Option<PluginMediaSource>,
    smtc_enabled: bool,
    smtc_source_app_id: &'a str,
) -> (app_id: &'a str)
    ensures
        app_id@ == if source is Some || !smtc_enabled {
            Seq::<char>::empty()
        } else {
            smtc_source_app_id@
        },
{
    if source.is_some() || !smtc_enabled {
        proof {
            reveal_strlit("");
        }
        ""
    } else {
        smtc_source_app_id
    }
}

} // verus!
