//! The fixed mapping from a detected schema version to the work that brings
//! the database to the current layout.
use vstd::prelude::*;

verus! {

/// Parity 2.5.13 database layout.
pub const PARITY_2_5_13_VERSION: u32 = 13;

/// Parity 2.7.2 database layout.
pub const PARITY_2_7_2_VERSION: u32 = 14;

/// OpenEthereum 3.0.1 database layout.
pub const OE_3_0_1_VERSION: u32 = 15;

/// OpenEthereum 3.1.0 database layout: the current one.
pub const OE_3_1_0_VERSION: u32 = 16;

/// Column that held the accounts bloom in the older layouts.
pub const COL_ACCOUNT_BLOOM: u32 = 5;

/// Number of columns of the current layout.
pub const CURRENT_COLUMNS: u32 = 7;

/// One migration step.
#[derive(Clone, Copy, Debug, PartialEq, Eq, Structural)]
pub enum Step {
    /// Delete every key of the column, in bounded batches.
    PurgeColumn(u32),
    /// Remove the column with the highest index.
    DropTrailingColumn,
}

/// Number of columns left after `steps` run on a store of `n` columns, or
/// `None` when a step does not fit (a purge of a missing column, a drop from
/// an empty store).
pub open spec fn columns_after(n: nat, steps: Seq<Step>) -> Option<nat>
    decreases steps.len(),
{
    if steps.len() == 0 {
        Some(n)
    } else {
        match steps[0] {
            Step::PurgeColumn(c) => if c < n {
                columns_after(n, steps.drop_first())
            } else {
                None
            },
            Step::DropTrailingColumn => if n > 0 {
                columns_after((n - 1) as nat, steps.drop_first())
            } else {
                None
            },
        }
    }
}

/// Number of columns and step list for a legacy version; `None` for the
/// current version and for versions this tool does not know.
pub open spec fn spec_plan(version: u32) -> Option<(nat, Seq<Step>)> {
    if version == PARITY_2_5_13_VERSION {
        Some((8, seq![Step::PurgeColumn(COL_ACCOUNT_BLOOM), Step::DropTrailingColumn]))
    } else if version == PARITY_2_7_2_VERSION {
        Some(
            (
                9,
                seq![
                    Step::PurgeColumn(COL_ACCOUNT_BLOOM),
                    Step::DropTrailingColumn,
                    Step::DropTrailingColumn,
                ],
            ),
        )
    } else if version == OE_3_0_1_VERSION {
        Some((9, seq![Step::DropTrailingColumn, Step::DropTrailingColumn]))
    } else {
        None
    }
}

/// The versions that `plan_for` migrates.
pub open spec fn is_legacy(version: u32) -> bool {
    version == PARITY_2_5_13_VERSION || version == PARITY_2_7_2_VERSION || version
        == OE_3_0_1_VERSION
}

/// A column count and the steps to run on a store opened with it.
pub struct Plan {
    columns: u32,
    steps: Vec<Step>,
}

impl Plan {
    /// The plan opens at least one column and each of its steps fits the
    /// columns that are left when it runs.
    #[verifier::type_invariant]
    pub closed spec fn inv(self) -> bool {
        &&& self.columns > 0
        &&& columns_after(self.columns as nat, self.steps@) is Some
    }

    pub closed spec fn spec_columns(&self) -> u32 {
        self.columns
    }

    pub closed spec fn spec_steps(&self) -> Seq<Step> {
        self.steps@
    }

    /// Number of columns to open the store with.
    pub fn columns(&self) -> (r: u32)
        ensures
            r == self.spec_columns(),
            r > 0,
    {
        proof {
            use_type_invariant(self);
        }
        self.columns
    }

    /// The steps, in the order they run.
    pub fn steps(&self) -> (r: &[Step])
        ensures
            r@ == self.spec_steps(),
            columns_after(self.spec_columns() as nat, r@) is Some,
    {
        proof {
            use_type_invariant(self);
        }
        self.steps.as_slice()
    }
}

/// What `plan_for` decides for a version it accepts.
pub enum Resolution {
    /// The database already has the current layout: nothing to do.
    AlreadyCurrent,
    /// The database has an older layout: run this plan.
    Migrate(Plan),
}

/// Looks up what brings a database of `version` to the current layout; a
/// version that this tool does not know comes back as the error.
pub fn plan_for(version: u32) -> (r: Result<Resolution, u32>)
    ensures
        version == OE_3_1_0_VERSION <==> r matches Ok(Resolution::AlreadyCurrent),
        !is_legacy(version) && version != OE_3_1_0_VERSION <==> r == Err::<Resolution, u32>(
            version,
        ),
        is_legacy(version) <==> r is Ok && r->Ok_0 is Migrate,
        r matches Ok(Resolution::Migrate(p)) ==> spec_plan(version) == Some(
            (p.spec_columns() as nat, p.spec_steps()),
        ),
{
    if version == PARITY_2_5_13_VERSION {
        let steps = vec![Step::PurgeColumn(COL_ACCOUNT_BLOOM), Step::DropTrailingColumn];
        assert(steps@ =~= spec_plan(version)->Some_0.1);
        assert(columns_after(8, steps@) is Some) by {
            reveal_with_fuel(columns_after, 3);
        }
        Ok(Resolution::Migrate(Plan { columns: 8, steps }))
    } else if version == PARITY_2_7_2_VERSION {
        let steps = vec![
            Step::PurgeColumn(COL_ACCOUNT_BLOOM),
            Step::DropTrailingColumn,
            Step::DropTrailingColumn,
        ];
        assert(steps@ =~= spec_plan(version)->Some_0.1);
        assert(columns_after(9, steps@) is Some) by {
            reveal_with_fuel(columns_after, 4);
        }
        Ok(Resolution::Migrate(Plan { columns: 9, steps }))
    } else if version == OE_3_0_1_VERSION {
        let steps = vec![Step::DropTrailingColumn, Step::DropTrailingColumn];
        assert(steps@ =~= spec_plan(version)->Some_0.1);
        assert(columns_after(9, steps@) is Some) by {
            reveal_with_fuel(columns_after, 3);
        }
        Ok(Resolution::Migrate(Plan { columns: 9, steps }))
    } else if version == OE_3_1_0_VERSION {
        Ok(Resolution::AlreadyCurrent)
    } else {
        Err(version)
    }
}

/// Every legacy plan is non-empty, opens the store with the column count of
/// its source layout (eight for 2.5, nine for 2.7 and 3.0), and leaves the
/// store with the column count of the current layout.
pub proof fn lemma_legacy_plans(version: u32)
    requires
        is_legacy(version),
    ensures
        spec_plan(version) is Some,
        spec_plan(version)->Some_0.1.len() > 0,
        spec_plan(version)->Some_0.0 == (if version == PARITY_2_5_13_VERSION {
            8nat
        } else {
            9nat
        }),
        columns_after(spec_plan(version)->Some_0.0, spec_plan(version)->Some_0.1) == Some(
            CURRENT_COLUMNS as nat,
        ),
{
    reveal_with_fuel(columns_after, 4);
    let steps = spec_plan(version)->Some_0.1;
    if version == PARITY_2_7_2_VERSION {
        assert(steps.drop_first().drop_first().drop_first() =~= Seq::<Step>::empty());
    } else {
        assert(steps.drop_first().drop_first() =~= Seq::<Step>::empty());
    }
}

} // verus!
