//! The lints on record in brief, and the catalog of each profile.

use crate::clippy::model::ClippyLevel;
use crate::config::{Applicability, ClippyGroup, Lint};
use crate::severity::BaseSeverity;
use crate::text::one_line;
use vstd::prelude::*;

verus! {

/// The identifier of the `absolute_paths` lint.
pub const ABSOLUTE_PATH_ID: &'static str = "absolute_paths";

/// What `absolute_paths` looks for.
pub const ABSOLUTE_PATH_DESCRIPTION: &'static str = "Checks for usage of items through absolute paths, like std::env::current_dir.";

/// The identifier of the `assigning_clones` lint.
pub const ASSIGNING_CLONES_ID: &'static str = "assigning_clones";

/// What `assigning_clones` looks for.
pub const ASSIGNING_CLONES_DESCRIPTION: &'static str = "Checks for code like foo = bar.clone();";

/// The identifier of the `blocks_in_conditions` lint.
pub const BLOCKS_IN_CONDITIONS_ID: &'static str = "blocks_in_conditions";

/// What `blocks_in_conditions` looks for.
pub const BLOCKS_IN_CONDITIONS_DESCRIPTION: &'static str = "\nChecks for if and match conditions that use blocks containing an expression, statements or conditions that use closures with blocks.";

/// The identifier of the `allow_attributes_without_reason` lint.
pub const ALLOW_ATTRIBUTES_WITHOUT_REASON_ID: &'static str = "allow_attributes_without_reason";

/// What `allow_attributes_without_reason` looks for.
pub const ALLOW_ATTRIBUTES_WITHOUT_REASON_DESCRIPTION: &'static str = "Checks for attributes that allow lints without a reason.";

/// The identifier of the `almost_complete_range` lint.
pub const ALMOST_COMPLETE_RANGE_ID: &'static str = "almost_complete_range";

/// What `almost_complete_range` looks for.
pub const ALMOST_COMPLETE_RANGE_DESCRIPTION: &'static str = "Checks for ranges which almost include the entire range of letters or digits.";

/// The identifier of the `almost_swaped` lint.
pub const ALMOST_SWAPED_ID: &'static str = "almost_swaped";

/// What `almost_swaped` looks for.
pub const ALMOST_SWAPED_DESCRIPTION: &'static str = "Checks for foo = bar; bar = foo sequences.";

/// The identifier of the `approx_constant` lint.
pub const APPROX_CONSTANT_ID: &'static str = "approx_constant";

/// What `approx_constant` looks for.
pub const APPROX_CONSTANT_DESCRIPTION: &'static str = "\nChecks for floating point literals that approximate constants which are defined in std::f32::consts or std::f64::consts, respectively, suggesting to use the predefined constant.";

/// The identifier of the `arc_with_non_send_sync` lint.
pub const ARC_WITH_NO_SEND_ID: &'static str = "arc_with_non_send_sync";

/// What `arc_with_non_send_sync` looks for.
pub const ARC_WITH_NO_SEND_DESCRIPTION: &'static str = "This lint warns when you use Arc with a type that does not implement Send or Sync.";

/// The identifier of the `arithmetic_side_effects` lint.
pub const ARITMETIC_SIDE_EFFECTS_ID: &'static str = "arithmetic_side_effects";

/// What `arithmetic_side_effects` looks for.
pub const ARITMETIC_SIDE_EFFECTS_DESCRIPTION: &'static str = "Checks any kind of arithmetic operation of any type.";

/// The identifier of the `as_underscore` lint.
pub const AS_UNDERSCORE_ID: &'static str = "as_underscore";

/// What `as_underscore` looks for.
pub const AS_UNDERSCORE_DESCRIPTION: &'static str = "Checks for usage of as underscore.";

/// The identifier of the `as_conversions` lint.
pub const AS_CONVERSIONS_ID: &'static str = "as_conversions";

/// What `as_conversions` looks for.
pub const AS_CONVERSIONS_DESCRIPTION: &'static str = "Checks for usage of as conversions.";

/// The identifier of the `as_ptr_cast_mut` lint.
pub const AS_PTR_CAST_MUT_ID: &'static str = "as_ptr_cast_mut";

/// What `as_ptr_cast_mut` looks for.
pub const AS_PTR_CAST_MUT_DESCRIPTION: &'static str = "Checks for the result of a &self-taking as_ptr being cast to a mutable pointer.";

/// The identifier of the `assertions_on_constants` lint.
pub const ASSERTIONS_ON_CONSTANTS_ID: &'static str = "assertions_on_constants";

/// What `assertions_on_constants` looks for.
pub const ASSERTIONS_ON_CONSTANTS_DESCRIPTION: &'static str = "Checks for assert!(true) and assert!(false) calls.";

/// The identifier of the `await_holding_lock` lint.
pub const AWAIT_HOLDING_LOCK_ID: &'static str = "await_holding_lock";

/// What `await_holding_lock` looks for.
pub const AWAIT_HOLDING_LOCK_DESCRIPTION: &'static str = "Checks for calls to await while holding a non-async-aware MutexGuard.";

/// The identifier of the `await_holding_invalid_type` lint.
pub const AWAIT_HOLDING_INVALID_TYPE_ID: &'static str = "await_holding_invalid_type";

/// What `await_holding_invalid_type` looks for.
pub const AWAIT_HOLDING_INVALID_TYPE_DESCRIPTION: &'static str = "Allows users to configure types which should not be held across await suspension points.";

/// The identifier of the `assign_op_pattern` lint.
pub const ASSIGN_OP_PATTERN_ID: &'static str = "assign_op_pattern";

/// What `assign_op_pattern` looks for.
pub const ASSIGN_OP_PATTERN_DESCRIPTION: &'static str = "Checks for a = a op b or a = b commutative_op a patterns.";

/// The identifier of the `async_yields_async` lint.
pub const ASYNC_YIELDS_ASYNC_ID: &'static str = "async_yields_async";

/// What `async_yields_async` looks for.
pub const ASYNC_YIELDS_ASYNC_DESCRIPTION: &'static str = "Checks for async blocks that yield values of types that can themselves be awaited.";

/// The identifier of the `allow_attributes` lint.
pub const ALLOW_ATTRIBUTES_ID: &'static str = "allow_attributes";

/// What `allow_attributes` looks for.
pub const ALLOW_ATTRIBUTES_DESCRIPTION: &'static str = "Checks for usage of the #[allow] attribute and suggests replacing it with the #[expect]";

/// The identifier of the `let_and_return` lint.
pub const LET_AND_RETURN_ID: &'static str = "let_and_return";

/// What `let_and_return` looks for.
pub const LET_AND_RETURN_DESCRIPTION: &'static str = "Checks for let-bindings, which are subsequently returned.";

/// The identifier of the `if_let_mutex` lint.
pub const IF_LET_MUTEX_ID: &'static str = "if_let_mutex";

/// What `if_let_mutex` looks for.
pub const IF_LET_MUTEX_DESCRIPTION: &'static str = "Checks for Mutex::lock calls in if let expression with lock calls in any of the else blocks.";

/// The records of one lint for a novice, an expert and a master.
pub open spec fn row(
    id: &'static str,
    description: &'static str,
    novice: BaseSeverity,
    expert: BaseSeverity,
    master: BaseSeverity,
    group: ClippyGroup,
    applicability: Applicability,
) -> (Lint, Lint, Lint) {
    (
        Lint::at(id, description, novice, group, applicability),
        Lint::at(id, description, expert, group, applicability),
        Lint::at(id, description, master, group, applicability),
    )
}

/// All lints on record, each with its three records, in the order in which
/// they are written to a file.
pub open spec fn all_lints() -> Seq<(Lint, Lint, Lint)> {
    seq![
        row(
            ABSOLUTE_PATH_ID,
            ABSOLUTE_PATH_DESCRIPTION,
            BaseSeverity::Allow,
            BaseSeverity::Warn,
            BaseSeverity::Deny,
            ClippyGroup::Restriction,
            Applicability::Unspecified,
        ),
        row(
            ASSIGNING_CLONES_ID,
            ASSIGNING_CLONES_DESCRIPTION,
            BaseSeverity::Warn,
            BaseSeverity::Warn,
            BaseSeverity::Deny,
            ClippyGroup::Pedantic,
            Applicability::Unspecified,
        ),
        row(
            BLOCKS_IN_CONDITIONS_ID,
            BLOCKS_IN_CONDITIONS_DESCRIPTION,
            BaseSeverity::Warn,
            BaseSeverity::Warn,
            BaseSeverity::Deny,
            ClippyGroup::Style,
            Applicability::MachineApplicable,
        ),
        row(
            ALLOW_ATTRIBUTES_WITHOUT_REASON_ID,
            ALLOW_ATTRIBUTES_WITHOUT_REASON_DESCRIPTION,
            BaseSeverity::Warn,
            BaseSeverity::Warn,
            BaseSeverity::Deny,
            ClippyGroup::Restriction,
            Applicability::MachineApplicable,
        ),
        row(
            ALMOST_COMPLETE_RANGE_ID,
            ALMOST_COMPLETE_RANGE_DESCRIPTION,
            BaseSeverity::Warn,
            BaseSeverity::Warn,
            BaseSeverity::Deny,
            ClippyGroup::Restriction,
            Applicability::Unspecified,
        ),
        row(
            ALMOST_SWAPED_ID,
            ALMOST_SWAPED_DESCRIPTION,
            BaseSeverity::Deny,
            BaseSeverity::Deny,
            BaseSeverity::Deny,
            ClippyGroup::Style,
            Applicability::MachineApplicable,
        ),
        row(
            APPROX_CONSTANT_ID,
            APPROX_CONSTANT_DESCRIPTION,
            BaseSeverity::Deny,
            BaseSeverity::Deny,
            BaseSeverity::Deny,
            ClippyGroup::Correctness,
            Applicability::Unspecified,
        ),
        row(
            ARC_WITH_NO_SEND_ID,
            ARC_WITH_NO_SEND_DESCRIPTION,
            BaseSeverity::Warn,
            BaseSeverity::Warn,
            BaseSeverity::Deny,
            ClippyGroup::Suspicious,
            Applicability::Unspecified,
        ),
        row(
            ARITMETIC_SIDE_EFFECTS_ID,
            ARITMETIC_SIDE_EFFECTS_DESCRIPTION,
            BaseSeverity::Allow,
            BaseSeverity::Warn,
            BaseSeverity::Deny,
            ClippyGroup::Restriction,
            Applicability::Unspecified,
        ),
        row(
            AS_UNDERSCORE_ID,
            AS_UNDERSCORE_DESCRIPTION,
            BaseSeverity::Warn,
            BaseSeverity::Warn,
            BaseSeverity::Deny,
            ClippyGroup::Restriction,
            Applicability::MachineApplicable,
        ),
        row(
            AS_CONVERSIONS_ID,
            AS_CONVERSIONS_DESCRIPTION,
            BaseSeverity::Allow,
            BaseSeverity::Warn,
            BaseSeverity::Deny,
            ClippyGroup::Restriction,
            Applicability::Unspecified,
        ),
        row(
            AS_PTR_CAST_MUT_ID,
            AS_PTR_CAST_MUT_DESCRIPTION,
            BaseSeverity::Allow,
            BaseSeverity::Warn,
            BaseSeverity::Deny,
            ClippyGroup::Nursery,
            Applicability::MaybeIncorrect,
        ),
        row(
            ASSERTIONS_ON_CONSTANTS_ID,
            ASSERTIONS_ON_CONSTANTS_DESCRIPTION,
            BaseSeverity::Warn,
            BaseSeverity::Warn,
            BaseSeverity::Deny,
            ClippyGroup::Style,
            Applicability::Unspecified,
        ),
        row(
            AWAIT_HOLDING_LOCK_ID,
            AWAIT_HOLDING_LOCK_DESCRIPTION,
            BaseSeverity::Warn,
            BaseSeverity::Warn,
            BaseSeverity::Deny,
            ClippyGroup::Suspicious,
            Applicability::Unspecified,
        ),
        row(
            AWAIT_HOLDING_INVALID_TYPE_ID,
            AWAIT_HOLDING_INVALID_TYPE_DESCRIPTION,
            BaseSeverity::Warn,
            BaseSeverity::Warn,
            BaseSeverity::Deny,
            ClippyGroup::Suspicious,
            Applicability::Unspecified,
        ),
        row(
            ASSIGN_OP_PATTERN_ID,
            ASSIGN_OP_PATTERN_DESCRIPTION,
            BaseSeverity::Warn,
            BaseSeverity::Warn,
            BaseSeverity::Deny,
            ClippyGroup::Style,
            Applicability::MachineApplicable,
        ),
        row(
            ASYNC_YIELDS_ASYNC_ID,
            ASYNC_YIELDS_ASYNC_DESCRIPTION,
            BaseSeverity::Deny,
            BaseSeverity::Deny,
            BaseSeverity::Deny,
            ClippyGroup::Correctness,
            Applicability::MaybeIncorrect,
        ),
        row(
            ALLOW_ATTRIBUTES_ID,
            ALLOW_ATTRIBUTES_DESCRIPTION,
            BaseSeverity::Warn,
            BaseSeverity::Warn,
            BaseSeverity::Deny,
            ClippyGroup::Restriction,
            Applicability::MachineApplicable,
        ),
        row(
            LET_AND_RETURN_ID,
            LET_AND_RETURN_DESCRIPTION,
            BaseSeverity::Allow,
            BaseSeverity::Warn,
            BaseSeverity::Deny,
            ClippyGroup::Restriction,
            Applicability::Unspecified,
        ),
        row(
            IF_LET_MUTEX_ID,
            IF_LET_MUTEX_DESCRIPTION,
            BaseSeverity::Deny,
            BaseSeverity::Deny,
            BaseSeverity::Deny,
            ClippyGroup::Correctness,
            Applicability::Unspecified,
        ),
    ]
}

/// The record for `level` among the three records of a lint.
pub open spec fn pick(lints: (Lint, Lint, Lint), level: ClippyLevel) -> Lint {
    match level {
        ClippyLevel::Novice => lints.0,
        ClippyLevel::Expert => lints.1,
        ClippyLevel::Master => lints.2,
    }
}

/// The records of all lints under `level`, in the order of the table.
pub open spec fn catalog(level: ClippyLevel) -> Seq<Lint> {
    all_lints().map_values(|lints: (Lint, Lint, Lint)| pick(lints, level))
}

/// The identifiers of `lints`, in order.
pub open spec fn ids(lints: Seq<Lint>) -> Seq<Seq<char>> {
    lints.map_values(|l: Lint| l.id@)
}

/// The table of all lints, each with its three records.
pub fn lints() -> (table: Vec<(Lint, Lint, Lint)>)
    ensures
        table@ == all_lints(),
{
    let mut table: Vec<(Lint, Lint, Lint)> = Vec::new();
    table.push(
        Lint::new(
            ABSOLUTE_PATH_ID,
            ABSOLUTE_PATH_DESCRIPTION,
            BaseSeverity::Allow,
            BaseSeverity::Warn,
            BaseSeverity::Deny,
            ClippyGroup::Restriction,
            Applicability::Unspecified,
        ),
    );
    table.push(
        Lint::new(
            ASSIGNING_CLONES_ID,
            ASSIGNING_CLONES_DESCRIPTION,
            BaseSeverity::Warn,
            BaseSeverity::Warn,
            BaseSeverity::Deny,
            ClippyGroup::Pedantic,
            Applicability::Unspecified,
        ),
    );
    table.push(
        Lint::new(
            BLOCKS_IN_CONDITIONS_ID,
            BLOCKS_IN_CONDITIONS_DESCRIPTION,
            BaseSeverity::Warn,
            BaseSeverity::Warn,
            BaseSeverity::Deny,
            ClippyGroup::Style,
            Applicability::MachineApplicable,
        ),
    );
    table.push(
        Lint::new(
            ALLOW_ATTRIBUTES_WITHOUT_REASON_ID,
            ALLOW_ATTRIBUTES_WITHOUT_REASON_DESCRIPTION,
            BaseSeverity::Warn,
            BaseSeverity::Warn,
            BaseSeverity::Deny,
            ClippyGroup::Restriction,
            Applicability::MachineApplicable,
        ),
    );
    table.push(
        Lint::new(
            ALMOST_COMPLETE_RANGE_ID,
            ALMOST_COMPLETE_RANGE_DESCRIPTION,
            BaseSeverity::Warn,
            BaseSeverity::Warn,
            BaseSeverity::Deny,
            ClippyGroup::Restriction,
            Applicability::Unspecified,
        ),
    );
    table.push(
        Lint::new(
            ALMOST_SWAPED_ID,
            ALMOST_SWAPED_DESCRIPTION,
            BaseSeverity::Deny,
            BaseSeverity::Deny,
            BaseSeverity::Deny,
            ClippyGroup::Style,
            Applicability::MachineApplicable,
        ),
    );
    table.push(
        Lint::new(
            APPROX_CONSTANT_ID,
            APPROX_CONSTANT_DESCRIPTION,
            BaseSeverity::Deny,
            BaseSeverity::Deny,
            BaseSeverity::Deny,
            ClippyGroup::Correctness,
            Applicability::Unspecified,
        ),
    );
    table.push(
        Lint::new(
            ARC_WITH_NO_SEND_ID,
            ARC_WITH_NO_SEND_DESCRIPTION,
            BaseSeverity::Warn,
            BaseSeverity::Warn,
            BaseSeverity::Deny,
            ClippyGroup::Suspicious,
            Applicability::Unspecified,
        ),
    );
    table.push(
        Lint::new(
            ARITMETIC_SIDE_EFFECTS_ID,
            ARITMETIC_SIDE_EFFECTS_DESCRIPTION,
            BaseSeverity::Allow,
            BaseSeverity::Warn,
            BaseSeverity::Deny,
            ClippyGroup::Restriction,
            Applicability::Unspecified,
        ),
    );
    table.push(
        Lint::new(
            AS_UNDERSCORE_ID,
            AS_UNDERSCORE_DESCRIPTION,
            BaseSeverity::Warn,
            BaseSeverity::Warn,
            BaseSeverity::Deny,
            ClippyGroup::Restriction,
            Applicability::MachineApplicable,
        ),
    );
    table.push(
        Lint::new(
            AS_CONVERSIONS_ID,
            AS_CONVERSIONS_DESCRIPTION,
            BaseSeverity::Allow,
            BaseSeverity::Warn,
            BaseSeverity::Deny,
            ClippyGroup::Restriction,
            Applicability::Unspecified,
        ),
    );
    table.push(
        Lint::new(
            AS_PTR_CAST_MUT_ID,
            AS_PTR_CAST_MUT_DESCRIPTION,
            BaseSeverity::Allow,
            BaseSeverity::Warn,
            BaseSeverity::Deny,
            ClippyGroup::Nursery,
            Applicability::MaybeIncorrect,
        ),
    );
    table.push(
        Lint::new(
            ASSERTIONS_ON_CONSTANTS_ID,
            ASSERTIONS_ON_CONSTANTS_DESCRIPTION,
            BaseSeverity::Warn,
            BaseSeverity::Warn,
            BaseSeverity::Deny,
            ClippyGroup::Style,
            Applicability::Unspecified,
        ),
    );
    table.push(
        Lint::new(
            AWAIT_HOLDING_LOCK_ID,
            AWAIT_HOLDING_LOCK_DESCRIPTION,
            BaseSeverity::Warn,
            BaseSeverity::Warn,
            BaseSeverity::Deny,
            ClippyGroup::Suspicious,
            Applicability::Unspecified,
        ),
    );
    table.push(
        Lint::new(
            AWAIT_HOLDING_INVALID_TYPE_ID,
            AWAIT_HOLDING_INVALID_TYPE_DESCRIPTION,
            BaseSeverity::Warn,
            BaseSeverity::Warn,
            BaseSeverity::Deny,
            ClippyGroup::Suspicious,
            Applicability::Unspecified,
        ),
    );
    table.push(
        Lint::new(
            ASSIGN_OP_PATTERN_ID,
            ASSIGN_OP_PATTERN_DESCRIPTION,
            BaseSeverity::Warn,
            BaseSeverity::Warn,
            BaseSeverity::Deny,
            ClippyGroup::Style,
            Applicability::MachineApplicable,
        ),
    );
    table.push(
        Lint::new(
            ASYNC_YIELDS_ASYNC_ID,
            ASYNC_YIELDS_ASYNC_DESCRIPTION,
            BaseSeverity::Deny,
            BaseSeverity::Deny,
            BaseSeverity::Deny,
            ClippyGroup::Correctness,
            Applicability::MaybeIncorrect,
        ),
    );
    table.push(
        Lint::new(
            ALLOW_ATTRIBUTES_ID,
            ALLOW_ATTRIBUTES_DESCRIPTION,
            BaseSeverity::Warn,
            BaseSeverity::Warn,
            BaseSeverity::Deny,
            ClippyGroup::Restriction,
            Applicability::MachineApplicable,
        ),
    );
    table.push(
        Lint::new(
            LET_AND_RETURN_ID,
            LET_AND_RETURN_DESCRIPTION,
            BaseSeverity::Allow,
            BaseSeverity::Warn,
            BaseSeverity::Deny,
            ClippyGroup::Restriction,
            Applicability::Unspecified,
        ),
    );
    table.push(
        Lint::new(
            IF_LET_MUTEX_ID,
            IF_LET_MUTEX_DESCRIPTION,
            BaseSeverity::Deny,
            BaseSeverity::Deny,
            BaseSeverity::Deny,
            ClippyGroup::Correctness,
            Applicability::Unspecified,
        ),
    );
    assert(table@ =~= all_lints());
    table
}

/// The records of all lints under `level`.
pub fn catalog_for(level: &ClippyLevel) -> (records: Vec<Lint>)
    ensures
        records@ == catalog(*level),
        forall|i: int| 0 <= i < records.len() ==> (#[trigger] records[i]).wf(),
{
    let table = lints();
    let mut records: Vec<Lint> = Vec::new();
    let mut i: usize = 0;
    while i < table.len()
        invariant
            i <= table.len(),
            table@ == all_lints(),
            records.len() == i,
            forall|j: int| 0 <= j < i ==> (#[trigger] records[j]) == pick(table[j], *level),
            forall|j: int| 0 <= j < i ==> (#[trigger] records[j]).wf(),
        decreases table.len() - i,
    {
        let record = match level {
            ClippyLevel::Novice => table[i].0,
            ClippyLevel::Expert => table[i].1,
            ClippyLevel::Master => table[i].2,
        };
        assert(record.wf()) by {
            lemma_records_well_formed(i as int);
        }
        records.push(record);
        i += 1;
    }
    assert(records@ =~= catalog(*level));
    records
}

/// The three records of every lint on record are well formed.
pub proof fn lemma_records_well_formed(i: int)
    requires
        0 <= i < all_lints().len(),
    ensures
        all_lints()[i].0.wf(),
        all_lints()[i].1.wf(),
        all_lints()[i].2.wf(),
{
}

/// Every profile has a policy for every lint: the catalogs of any two
/// profiles are not empty, have the same length, and name the same lint at
/// every position, so they name the same set of lints.
pub proof fn lemma_catalogs_name_the_same_lints(a: ClippyLevel, b: ClippyLevel)
    ensures
        catalog(a).len() > 0,
        catalog(a).len() == catalog(b).len(),
        forall|i: int| 0 <= i < catalog(a).len() ==> (#[trigger] catalog(a)[i]).id == catalog(b)[i].id,
        ids(catalog(a)) == ids(catalog(b)),
        ids(catalog(a)).to_set() == ids(catalog(b)).to_set(),
{
    assert(all_lints().len() == 20);
    assert(ids(catalog(a)) =~= ids(catalog(b)));
}
/// No two lints on record share an identifier.
pub proof fn lemma_catalog_ids_distinct(level: ClippyLevel)
    ensures
        ids(catalog(level)).no_duplicates(),
{
    reveal_strlit("absolute_paths");
    reveal_strlit("assigning_clones");
    reveal_strlit("blocks_in_conditions");
    reveal_strlit("allow_attributes_without_reason");
    reveal_strlit("almost_complete_range");
    reveal_strlit("almost_swaped");
    reveal_strlit("approx_constant");
    reveal_strlit("arc_with_non_send_sync");
    reveal_strlit("arithmetic_side_effects");
    reveal_strlit("as_underscore");
    reveal_strlit("as_conversions");
    reveal_strlit("as_ptr_cast_mut");
    reveal_strlit("assertions_on_constants");
    reveal_strlit("await_holding_lock");
    reveal_strlit("await_holding_invalid_type");
    reveal_strlit("assign_op_pattern");
    reveal_strlit("async_yields_async");
    reveal_strlit("allow_attributes");
    reveal_strlit("let_and_return");
    reveal_strlit("if_let_mutex");
    let names = ids(catalog(level));
    assert(names.len() == 20);
    assert forall|i: int, j: int| 0 <= i < names.len() && 0 <= j < names.len() && i != j implies names[i]
        != names[j] by {
        assert(names[i] == all_lints()[i].0.id@);
        assert(names[j] == all_lints()[j].0.id@);
        if names[i].len() == names[j].len() {
            // identifiers of one length differ at one of these places
            assert(names[i][1] != names[j][1]);
        }
    }
}

/// Every identifier on record is one line.
pub proof fn lemma_catalog_ids_one_line(level: ClippyLevel)
    ensures
        forall|i: int| 0 <= i < catalog(level).len() ==> one_line((#[trigger] catalog(level)[i]).id@),
{
    reveal_strlit("absolute_paths");
    reveal_strlit("assigning_clones");
    reveal_strlit("blocks_in_conditions");
    reveal_strlit("allow_attributes_without_reason");
    reveal_strlit("almost_complete_range");
    reveal_strlit("almost_swaped");
    reveal_strlit("approx_constant");
    reveal_strlit("arc_with_non_send_sync");
    reveal_strlit("arithmetic_side_effects");
    reveal_strlit("as_underscore");
    reveal_strlit("as_conversions");
    reveal_strlit("as_ptr_cast_mut");
    reveal_strlit("assertions_on_constants");
    reveal_strlit("await_holding_lock");
    reveal_strlit("await_holding_invalid_type");
    reveal_strlit("assign_op_pattern");
    reveal_strlit("async_yields_async");
    reveal_strlit("allow_attributes");
    reveal_strlit("let_and_return");
    reveal_strlit("if_let_mutex");
    assert(catalog(level).len() == 20);
    assert forall|i: int| 0 <= i < catalog(level).len() implies one_line(
        (#[trigger] catalog(level)[i]).id@,
    ) by {
        assert(catalog(level)[i].id@ == all_lints()[i].0.id@);
    }
}

} // verus!
