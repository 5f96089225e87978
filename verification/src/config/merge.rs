//! Merge of a global configuration with a project configuration.
use vstd::prelude::*;
use super::model::{
    clone_defs, def_views, ExtractorConfigView, ExtractorDef, ExtractorDefView, HodeiConfig,
};

verus! {

/// The project's value if it has one, else the global one.
pub open spec fn or_else<T>(project: Option<T>, global: Option<T>) -> Option<T> {
    if project is Some {
        project
    } else {
        global
    }
}

/// Index of the first definition named `name`, or -1 when there is none.
pub open spec fn name_index(acc: Seq<ExtractorDefView>, name: Seq<char>) -> int
    decreases acc.len(),
{
    if acc.len() == 0 {
        -1
    } else if acc[0].name == name {
        0
    } else {
        let k = name_index(acc.drop_first(), name);
        if k < 0 {
            -1
        } else {
            k + 1
        }
    }
}

/// Add one project definition: it replaces the first definition with the
/// same name, or is appended when there is none.
pub open spec fn merge_one(acc: Seq<ExtractorDefView>, p: ExtractorDefView) -> Seq<ExtractorDefView> {
    let k = name_index(acc, p.name);
    if k >= 0 {
        acc.update(k, p)
    } else {
        acc.push(p)
    }
}

/// Add the project definitions, in order, to the global ones.
pub open spec fn merge_defs(acc: Seq<ExtractorDefView>, ps: Seq<ExtractorDefView>) -> Seq<ExtractorDefView>
    decreases ps.len(),
{
    if ps.len() == 0 {
        acc
    } else {
        merge_one(merge_defs(acc, ps.drop_last()), ps.last())
    }
}

/// The definitions of a configuration section, none counting as empty.
pub open spec fn defs_or_empty(c: ExtractorConfigView) -> Seq<ExtractorDefView> {
    match c.def {
        Some(ds) => ds,
        None => Seq::empty(),
    }
}

/// The merge of a global configuration with a project configuration: every
/// setting the project leaves out is inherited from the global one, and the
/// project's extractors override the global ones with the same name.
pub open spec fn merged(global: ExtractorConfigView, project: ExtractorConfigView) -> ExtractorConfigView {
    ExtractorConfigView {
        enabled: or_else(project.enabled, global.enabled),
        max_concurrent: or_else(project.max_concurrent, global.max_concurrent),
        default_timeout: or_else(project.default_timeout, global.default_timeout),
        global_memory_limit: or_else(project.global_memory_limit, global.global_memory_limit),
        global_cpu_limit: or_else(project.global_cpu_limit, global.global_cpu_limit),
        default_nice: or_else(project.default_nice, global.default_nice),
        default_io_priority: or_else(project.default_io_priority, global.default_io_priority),
        def: Some(merge_defs(defs_or_empty(global), defs_or_empty(project))),
    }
}

/// What `name_index` finds.
pub proof fn lemma_name_index(acc: Seq<ExtractorDefView>, name: Seq<char>)
    ensures
        -1 <= name_index(acc, name) < acc.len(),
        name_index(acc, name) == -1 <==> forall|j: int| 0 <= j < acc.len() ==> #[trigger] acc[j].name != name,
        name_index(acc, name) >= 0 ==> acc[name_index(acc, name)].name == name,
        forall|j: int| 0 <= j < name_index(acc, name) ==> #[trigger] acc[j].name != name,
    decreases acc.len(),
{
    if acc.len() > 0 && acc[0].name != name {
        let rest = acc.drop_first();
        lemma_name_index(rest, name);
        assert forall|j: int| 1 <= j < acc.len() implies acc[j].name == rest[j - 1].name by {}
        if name_index(rest, name) == -1 {
            assert forall|j: int| 0 <= j < acc.len() implies #[trigger] acc[j].name != name by {
                if j > 0 {
                    assert(rest[j - 1].name != name);
                }
            }
        }
        assert forall|j: int| 0 <= j < name_index(acc, name) implies #[trigger] acc[j].name != name by {
            if j > 0 {
                assert(rest[j - 1].name != name);
            }
        }
    }
}

/// Adding one definition keeps the names at every existing position, keeps
/// the length or grows it by one, and places the new definition.
pub proof fn lemma_merge_one(acc: Seq<ExtractorDefView>, p: ExtractorDefView)
    ensures
        acc.len() <= merge_one(acc, p).len() <= acc.len() + 1,
        forall|k: int| 0 <= k < acc.len() ==> (#[trigger] merge_one(acc, p)[k]).name == acc[k].name,
        forall|k: int| 0 <= k < acc.len() && acc[k].name != p.name ==> #[trigger] merge_one(acc, p)[k] == acc[k],
        exists|k: int| 0 <= k < merge_one(acc, p).len() && #[trigger] merge_one(acc, p)[k] == p,
{
    lemma_name_index(acc, p.name);
    let k = name_index(acc, p.name);
    if k >= 0 {
        assert(merge_one(acc, p)[k] == p);
    } else {
        assert(merge_one(acc, p)[acc.len() as int] == p);
    }
}

/// Merging never shrinks the definitions and keeps every name in place.
pub proof fn lemma_merge_defs_positions(gs: Seq<ExtractorDefView>, ps: Seq<ExtractorDefView>)
    ensures
        gs.len() <= merge_defs(gs, ps).len(),
        forall|k: int| 0 <= k < gs.len() ==> (#[trigger] merge_defs(gs, ps)[k]).name == gs[k].name,
    decreases ps.len(),
{
    if ps.len() > 0 {
        lemma_merge_defs_positions(gs, ps.drop_last());
        lemma_merge_one(merge_defs(gs, ps.drop_last()), ps.last());
    }
}

/// Law: a project extractor that no later project extractor shadows ends up
/// in the merged configuration, whatever the global configuration holds.
pub proof fn law_project_extractors_win(gs: Seq<ExtractorDefView>, ps: Seq<ExtractorDefView>, i: int)
    requires
        0 <= i < ps.len(),
        forall|j: int| i < j < ps.len() ==> #[trigger] ps[j].name != ps[i].name,
    ensures
        exists|k: int| 0 <= k < merge_defs(gs, ps).len() && #[trigger] merge_defs(gs, ps)[k] == ps[i],
    decreases ps.len(),
{
    let prev = merge_defs(gs, ps.drop_last());
    lemma_merge_one(prev, ps.last());
    if i < ps.len() - 1 {
        let rest = ps.drop_last();
        assert forall|j: int| i < j < rest.len() implies #[trigger] rest[j].name != rest[i].name by {
            assert(ps[j].name != ps[i].name);
        }
        law_project_extractors_win(gs, rest, i);
        let k = choose|k: int| 0 <= k < prev.len() && #[trigger] prev[k] == rest[i];
        assert(ps.last().name != ps[i].name);
        assert(merge_one(prev, ps.last())[k] == ps[i]);
        assert(merge_defs(gs, ps)[k] == ps[i]);
    } else {
        let m = merge_one(prev, ps.last());
        let k = choose|k: int| 0 <= k < m.len() && #[trigger] m[k] == ps.last();
        assert(merge_defs(gs, ps)[k] == ps[i]);
    }
}

/// Law: a global extractor whose name no project extractor uses keeps its
/// place and its definition in the merged configuration.
pub proof fn law_unshadowed_globals_kept(gs: Seq<ExtractorDefView>, ps: Seq<ExtractorDefView>, k: int)
    requires
        0 <= k < gs.len(),
        forall|i: int| 0 <= i < ps.len() ==> #[trigger] ps[i].name != gs[k].name,
    ensures
        merge_defs(gs, ps)[k] == gs[k],
    decreases ps.len(),
{
    if ps.len() > 0 {
        let rest = ps.drop_last();
        assert forall|i: int| 0 <= i < rest.len() implies #[trigger] rest[i].name != gs[k].name by {
            assert(ps[i].name != gs[k].name);
        }
        law_unshadowed_globals_kept(gs, rest, k);
        lemma_merge_defs_positions(gs, rest);
        lemma_merge_one(merge_defs(gs, rest), ps.last());
        assert(ps[ps.len() - 1].name != gs[k].name);
    }
}

/// Whether no two definitions share a name.
pub open spec fn distinct_names(ds: Seq<ExtractorDefView>) -> bool {
    forall|i: int, j: int| 0 <= i < ds.len() && 0 <= j < ds.len() && i != j ==> ds[i].name != ds[j].name
}

proof fn lemma_merge_self_prefix(ds: Seq<ExtractorDefView>, n: int)
    requires
        distinct_names(ds),
        0 <= n <= ds.len(),
    ensures
        merge_defs(ds, ds.take(n)) == ds,
    decreases n,
{
    if n > 0 {
        assert(ds.take(n).drop_last() =~= ds.take(n - 1));
        lemma_merge_self_prefix(ds, n - 1);
        lemma_name_index(ds, ds[n - 1].name);
        let k = name_index(ds, ds[n - 1].name);
        assert(k == n - 1) by {
            if k == -1 {
                assert(ds[n - 1].name != ds[n - 1].name);
            } else if k != n - 1 {
                assert(ds[k].name == ds[n - 1].name);
            }
        }
        assert(ds.update(n - 1, ds[n - 1]) =~= ds);
    } else {
        assert(ds.take(0) =~= Seq::<ExtractorDefView>::empty());
    }
}

/// Law: merging a configuration whose extractor names are distinct with
/// itself gives it back.
pub proof fn law_merge_idempotent(c: ExtractorConfigView)
    requires
        c.def is Some,
        distinct_names(c.def->0),
    ensures
        merged(c, c) == c,
{
    let ds = c.def->0;
    lemma_merge_self_prefix(ds, ds.len() as int);
    assert(ds.take(ds.len() as int) =~= ds);
}

fn find_extractor(acc: &Vec<ExtractorDef>, name: &String) -> (r: Option<usize>)
    ensures
        match r {
            Some(k) => name_index(def_views(acc@), name@) == k as int,
            None => name_index(def_views(acc@), name@) == -1,
        },
{
    let ghost v = def_views(acc@);
    proof {
        lemma_name_index(v, name@);
    }
    for j in 0..acc.len()
        invariant
            v == def_views(acc@),
            forall|i: int| 0 <= i < j ==> #[trigger] v[i].name != name@,
            -1 <= name_index(v, name@) < v.len(),
            name_index(v, name@) == -1 <==> forall|i: int| 0 <= i < v.len() ==> #[trigger] v[i].name != name@,
            name_index(v, name@) >= 0 ==> v[name_index(v, name@)].name == name@,
            forall|i: int| 0 <= i < name_index(v, name@) ==> #[trigger] v[i].name != name@,
    {
        if acc[j].name == *name {
            assert(v[j as int].name == name@);
            return Some(j);
        }
        assert(v[j as int].name != name@);
    }
    None
}

/// Merge a global configuration with a project configuration: the project's
/// settings win, missing ones are inherited, and each project extractor
/// replaces the global extractor of the same name or is appended.
pub fn merge_config(global: &HodeiConfig, project: &HodeiConfig) -> (m: HodeiConfig)
    ensures
        m@ == merged(global@, project@),
{
    let mut merged_cfg = project.clone();
    if merged_cfg.extractors.enabled.is_none() {
        merged_cfg.extractors.enabled = global.extractors.enabled;
    }
    if merged_cfg.extractors.max_concurrent.is_none() {
        merged_cfg.extractors.max_concurrent = global.extractors.max_concurrent;
    }
    if merged_cfg.extractors.default_timeout.is_none() {
        merged_cfg.extractors.default_timeout = super::model::clone_opt_string(&global.extractors.default_timeout);
    }
    if merged_cfg.extractors.global_memory_limit.is_none() {
        merged_cfg.extractors.global_memory_limit = global.extractors.global_memory_limit;
    }
    if merged_cfg.extractors.global_cpu_limit.is_none() {
        merged_cfg.extractors.global_cpu_limit = global.extractors.global_cpu_limit;
    }
    if merged_cfg.extractors.default_nice.is_none() {
        merged_cfg.extractors.default_nice = global.extractors.default_nice;
    }
    if merged_cfg.extractors.default_io_priority.is_none() {
        merged_cfg.extractors.default_io_priority = global.extractors.default_io_priority;
    }
    let mut merged_extractors: Vec<ExtractorDef> = match &global.extractors.def {
        Some(defs) => clone_defs(defs),
        None => Vec::new(),
    };
    assert(def_views(merged_extractors@) =~= defs_or_empty(global@));
    if let Some(project_extractors) = &project.extractors.def {
        let ghost ps = def_views(project_extractors@);
        let ghost gs = defs_or_empty(global@);
        for i in 0..project_extractors.len()
            invariant
                ps == def_views(project_extractors@),
                def_views(merged_extractors@) == merge_defs(gs, ps.take(i as int)),
        {
            let d = project_extractors[i].clone();
            proof {
                assert(ps.take(i + 1).drop_last() =~= ps.take(i as int));
                assert(ps.take(i + 1).last() == d@);
            }
            let ghost before = def_views(merged_extractors@);
            match find_extractor(&merged_extractors, &d.name) {
                Some(k) => {
                    proof { lemma_name_index(before, d@.name); }
                    merged_extractors.set(k, d);
                    assert(def_views(merged_extractors@) =~= before.update(k as int, d@));
                },
                None => {
                    merged_extractors.push(d);
                    assert(def_views(merged_extractors@) =~= before.push(d@));
                },
            }
        }
        assert(ps.take(project_extractors.len() as int) =~= ps);
    } else {
        assert(defs_or_empty(project@) =~= Seq::<ExtractorDefView>::empty());
    }
    merged_cfg.extractors.def = Some(merged_extractors);
    merged_cfg
}

} // verus!
