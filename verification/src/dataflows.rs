//! Assembly of dataflow graphs against the catalog, and the
//! re-optimization hook.
//!
//! When a dataflow graph is built for a statement under explain mode,
//! every real (non-synthetic) dependency view in the graph has a plan that
//! was cached in the catalog under whatever config was active when the
//! view was created. Because explain output must reflect the current
//! config, [`DataflowBuilder::reoptimize_imported_views`] re-runs the view
//! pipeline's terminal stage against each such dependency's stored raw
//! definition and substitutes the fresh plan in place of the cached one.

use vstd::prelude::*;

use crate::config::{OptimizeMode, OptimizerConfig};
use crate::error::OptimizerError;
use crate::ir::{BuildDesc, DataflowDescription, GlobalId, MirExpr, RawExpr};
use crate::lower::{is_empty_expr_error, raw_wf};
use crate::stage::Optimize;
use crate::view;

verus! {

/// A view definition as stored by the catalog: its raw pre-optimization
/// expression.
#[derive(Debug)]
pub struct ViewDef {
    /// The raw expression the view was created from.
    pub raw_expr: RawExpr,
}

/// One kind of durable catalog object.
#[derive(Debug)]
pub enum CatalogItem {
    /// A view, carrying its stored raw definition.
    View(ViewDef),
    /// A table, which stores data and has no raw definition to re-derive.
    Table,
}

/// An entry of the catalog: an object id and the item it denotes.
#[derive(Debug)]
pub struct CatalogEntry {
    /// The id of the object.
    pub id: GlobalId,
    /// The item the id denotes.
    pub item: CatalogItem,
}

/// The read-only store of durable object definitions.
#[derive(Debug)]
pub struct Catalog {
    /// The cataloged objects.
    pub entries: Vec<CatalogEntry>,
}

impl Catalog {
    /// Well-formedness: no two entries share an id.
    pub open spec fn wf(self) -> bool {
        forall|i: int, j: int|
            0 <= i < j < self.entries@.len() ==> self.entries@[i].id != self.entries@[j].id
    }

    /// Whether some entry has the given id.
    pub open spec fn contains(self, id: GlobalId) -> bool {
        exists|i: int| 0 <= i < self.entries@.len() && self.entries@[i].id == id
    }

    /// The entry with the given id.
    pub open spec fn entry_of(self, id: GlobalId) -> CatalogEntry
        recommends
            self.contains(id),
    {
        self.entries@[choose|i: int|
            0 <= i < self.entries@.len() && self.entries@[i].id == id]
    }

    /// Look up the entry of an object id known to be cataloged.
    pub fn get_entry(&self, id: &GlobalId) -> (r: &CatalogEntry)
        requires
            self.wf(),
            self.contains(*id),
        ensures
            *r == self.entry_of(*id),
            r.id == *id,
    {
        let mut i: usize = 0;
        while i < self.entries.len()
            invariant
                i <= self.entries@.len(),
                self.wf(),
                self.contains(*id),
                forall|j: int| 0 <= j < i ==> self.entries@[j].id != *id,
            decreases self.entries@.len() - i,
        {
            if self.entries[i].id == *id {
                proof {
                    let c = choose|j: int|
                        0 <= j < self.entries@.len() && self.entries@[j].id == *id;
                    if c < i as int {
                        assert(self.entries@[c].id != self.entries@[i as int].id);
                    } else if c > i as int {
                        assert(self.entries@[i as int].id != self.entries@[c].id);
                    }
                }
                return &self.entries[i];
            }
            i = i + 1;
        }
        proof {
            let c = choose|j: int| 0 <= j < self.entries@.len() && self.entries@[j].id == *id;
            assert(self.entries@[c].id != *id);
        }
        vstd::pervasive::unreached()
    }
}

/// Whether a build description is eligible for re-optimization: it names a
/// real (non-synthetic) object whose catalog entry is a view. Synthetic
/// ids have no stable raw definition to re-derive from and are skipped.
pub open spec fn eligible_view(cat: Catalog, d: BuildDesc<MirExpr>) -> bool {
    &&& !d.id.is_synthetic()
    &&& cat.contains(d.id)
    &&& cat.entry_of(d.id).item is View
}

/// The stored raw definition of the view cataloged under `id`.
pub open spec fn stored_raw(cat: Catalog, id: GlobalId) -> RawExpr {
    cat.entry_of(id).item->View_0.raw_expr
}

/// Whether `dn` is `d` with its plan replaced by the optimization of the
/// stored raw definition of `d`'s view under `config`.
pub open spec fn refreshed(
    cat: Catalog,
    config: OptimizerConfig,
    d: BuildDesc<MirExpr>,
    dn: BuildDesc<MirExpr>,
) -> bool {
    &&& dn.id == d.id
    &&& dn.plan@ == view::Optimizer::optimized_view(config, stored_raw(cat, d.id)@)
}

/// Whether every eligible view among `olds` has a well-formed stored raw
/// definition, so that the whole hook invocation succeeds.
pub open spec fn hook_can_refresh(cat: Catalog, olds: Seq<BuildDesc<MirExpr>>) -> bool {
    forall|j: int|
        0 <= j < olds.len() && eligible_view(cat, olds[j]) ==> raw_wf(
            stored_raw(cat, olds[j].id)@,
        )
}

/// Whether `news` is `olds` with every eligible view's plan refreshed
/// under `config` and every other entry untouched.
pub open spec fn hook_refreshes(
    cat: Catalog,
    config: OptimizerConfig,
    olds: Seq<BuildDesc<MirExpr>>,
    news: Seq<BuildDesc<MirExpr>>,
) -> bool {
    &&& news.len() == olds.len()
    &&& forall|j: int|
        0 <= j < olds.len() && eligible_view(cat, olds[j]) ==> refreshed(
            cat,
            config,
            olds[j],
            news[j],
        )
    &&& forall|j: int|
        0 <= j < olds.len() && !eligible_view(cat, olds[j]) ==> news[j] == olds[j]
}

/// Whether the hook failed at declaration index `k`: the eligible view at
/// `k` has an ill-formed stored raw definition, every eligible view after
/// `k` (processed earlier, since processing walks the declarations in
/// reverse) was already refreshed, and every entry up to and including `k`
/// is untouched — in particular no dependent of `k` carries a freshly
/// computed but uncommitted plan.
pub open spec fn hook_failure_at(
    cat: Catalog,
    config: OptimizerConfig,
    olds: Seq<BuildDesc<MirExpr>>,
    news: Seq<BuildDesc<MirExpr>>,
    k: int,
) -> bool {
    &&& 0 <= k < olds.len()
    &&& eligible_view(cat, olds[k])
    &&& !raw_wf(stored_raw(cat, olds[k].id)@)
    &&& news.len() == olds.len()
    &&& forall|j: int|
        k < j < olds.len() && eligible_view(cat, olds[j]) ==> raw_wf(stored_raw(cat, olds[j].id)@)
            && refreshed(cat, config, olds[j], news[j])
    &&& forall|j: int| k < j < olds.len() && !eligible_view(cat, olds[j]) ==> news[j] == olds[j]
    &&& forall|j: int| 0 <= j <= k ==> news[j] == olds[j]
}

/// Assembles dataflow graphs; holds read-only access to the catalog.
pub struct DataflowBuilder<'a> {
    /// The catalog the builder resolves dependencies against.
    pub catalog: &'a Catalog,
}

impl<'a> DataflowBuilder<'a> {
    /// Re-optimize the imported view plans using the current optimizer
    /// configuration if we are running in explain mode.
    ///
    /// Walks the object declarations in reverse, so each dependency is
    /// refreshed before any of its dependents, and substitutes each
    /// eligible view's fresh plan in place of the cached one. Synthetic
    /// (transient/explain) ids are skipped. A single re-optimization
    /// failure aborts the whole invocation with that stage's error, and
    /// entries not yet processed keep their cached plans, so the caller
    /// must discard the entire assembly attempt.
    pub fn reoptimize_imported_views(
        &self,
        df_desc: &mut DataflowDescription<MirExpr>,
        config: &OptimizerConfig,
    ) -> (r: Result<(), OptimizerError>)
        requires
            self.catalog.wf(),
            forall|j: int|
                0 <= j < old(df_desc).objects_to_build@.len() && !(#[trigger] old(
                    df_desc,
                ).objects_to_build@[j].id.is_synthetic()) ==> self.catalog.contains(
                    old(df_desc).objects_to_build@[j].id,
                ),
        ensures
            final(df_desc).objects_to_build@.len() == old(df_desc).objects_to_build@.len(),
            config.mode != OptimizeMode::Explain ==> r is Ok && *final(df_desc) == *old(df_desc),
            config.mode == OptimizeMode::Explain ==> {
                &&& (r is Ok <==> hook_can_refresh(
                    *self.catalog,
                    old(df_desc).objects_to_build@,
                ))
                &&& r is Ok ==> hook_refreshes(
                    *self.catalog,
                    *config,
                    old(df_desc).objects_to_build@,
                    final(df_desc).objects_to_build@,
                )
                &&& r matches Err(e) ==> is_empty_expr_error(e) && exists|k: int|
                    hook_failure_at(
                        *self.catalog,
                        *config,
                        old(df_desc).objects_to_build@,
                        final(df_desc).objects_to_build@,
                        k,
                    )
            },
    {
        match config.mode {
            OptimizeMode::Execute => {
                return Ok(());
            },
            OptimizeMode::Explain => {},
        }
        {
            let ghost olds = df_desc.objects_to_build@;
            let mut i: usize = df_desc.objects_to_build.len();
            while i > 0
                invariant
                    config.mode == OptimizeMode::Explain,
                    self.catalog.wf(),
                    forall|j: int|
                        0 <= j < olds.len() && !(#[trigger] olds[j].id.is_synthetic())
                            ==> self.catalog.contains(olds[j].id),
                    i <= olds.len(),
                    olds == old(df_desc).objects_to_build@,
                    df_desc.objects_to_build@.len() == olds.len(),
                    forall|j: int| 0 <= j < i ==> df_desc.objects_to_build@[j] == olds[j],
                    forall|j: int|
                        i <= j < olds.len() && eligible_view(*self.catalog, olds[j]) ==> raw_wf(
                            stored_raw(*self.catalog, olds[j].id)@,
                        ) && refreshed(
                            *self.catalog,
                            *config,
                            olds[j],
                            df_desc.objects_to_build@[j],
                        ),
                    forall|j: int|
                        i <= j < olds.len() && !eligible_view(*self.catalog, olds[j])
                            ==> df_desc.objects_to_build@[j] == olds[j],
                decreases i,
            {
                i = i - 1;
                let id = df_desc.objects_to_build[i].id;
                proof {
                    assert(df_desc.objects_to_build@[i as int] == olds[i as int]);
                }
                if !id.synthetic() {
                    proof {
                        assert(!olds[i as int].id.is_synthetic());
                        assert(self.catalog.contains(olds[i as int].id));
                    }
                    let entry = self.catalog.get_entry(&id);
                    match &entry.item {
                        CatalogItem::View(v) => {
                            let mut view_optimizer = view::Optimizer::new(config.clone());
                            match view_optimizer.optimize(v.raw_expr.clone()) {
                                Ok(plan) => {
                                    df_desc.objects_to_build.set(i, BuildDesc { id, plan });
                                },
                                Err(e) => {
                                    proof {
                                        let ghost news = df_desc.objects_to_build@;
                                        assert(hook_failure_at(
                                            *self.catalog,
                                            *config,
                                            olds,
                                            news,
                                            i as int,
                                        ));
                                    }
                                    return Err(e);
                                },
                            }
                        },
                        CatalogItem::Table => {},
                    }
                }
            }
        }
        Ok(())
    }
}

} // verus!
