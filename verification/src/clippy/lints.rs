//! The lints on record: their texts, and the table of their policies.

use crate::clippy::model::{Applicability, ClippyLevel, ClippyLint, LintGroup};
use crate::clippy::policy::{policy, LintPolicy};
use crate::severity::BaseSeverity;
use crate::text::one_line;
use vstd::prelude::*;

verus! {

/// The identifier of the `absolute_paths` lint.
pub const ABSOLUTE_PATH_ID: &'static str = "absolute_paths";

/// What `absolute_paths` looks for.
pub const ABSOLUTE_PATH_DESCRIPTION: &'static str = "Checks for usage of items through absolute paths, like std::env::current_dir.";

/// Why what `absolute_paths` looks for is bad.
pub const ABSOLUTE_PATH_WHATS_BAD: &'static str = "Many codebases have their own style when it comes to importing, but one that is seldom used is using absolute paths everywhere.\n\nThis is generally considered unidiomatic, and you should add a use statement.\n\nThe default maximum segments (2) is pretty strict, you may want to increase this in clippy.toml.\nNote: One exception to this is code from macro expansion - this does not lint such cases, as using absolute paths is the proper way of referencing items in one.";

/// Known problems of `absolute_paths`.
pub const ABSOLUTE_PATH_KNOW_PROBLEM: &'static str = "There are currently a few cases which are not caught by this lint:\nMacro calls. e.g. path::to::macro!()\nDerive macros. e.g. #[derive(path::to::macro)]\nAttribute macros. e.g. #[path::to::macro]";

/// Where `absolute_paths` is discussed.
pub const ABSOLUTE_PATH_ISSUE: &'static str = "https://github.com/rust-lang/rust-clippy/issues?q=is%3Aissue+absolute_paths";

/// The identifier of the `alloc_instead_of_core` lint.
pub const ALLOC_INSTEAD_OF_CORE_ID: &'static str = "alloc_instead_of_core";

/// What `alloc_instead_of_core` looks for.
pub const ALLOC_INSTEAD_OF_CORE_DESCRIPTION: &'static str = "Finds items imported through alloc when available through core.";

/// Why what `alloc_instead_of_core` looks for is bad.
pub const ALLOC_INSTEAD_OF_CORE_WHATS_BAD: &'static str = "Crates which have no_std compatibility and may optionally require alloc may wish to ensure types are imported from core to ensure disabling alloc does not cause the crate to fail to compile. This lint is also useful for crates migrating to become no_std compatible.";

/// Known problems of `alloc_instead_of_core`.
pub const ALLOC_INSTEAD_OF_CORE_KNOW_PROBLEM: &'static str = "The lint is only partially aware of the required MSRV for items that were originally in std but moved to core.";

/// Where `alloc_instead_of_core` is discussed.
pub const ALLOC_INSTEAD_OF_CORE_ISSUE: &'static str = "https://github.com/rust-lang/rust-clippy/issues?q=is%3Aissue+alloc_instead_of_core";

/// The identifier of the `allow_attributes` lint.
pub const ALLOW_ATTRIBUTE_ID: &'static str = "allow_attributes";

/// What `allow_attributes` looks for.
pub const ALLOW_ATTRIBUTE_DESCRIPTION: &'static str = "Checks for usage of the #[allow] attribute and suggests replacing it with the #[expect]";

/// Why what `allow_attributes` looks for is bad.
pub const ALLOW_ATTRIBUTE_WHATS_BAD: &'static str = "#[expect] attributes suppress the lint emission, but emit a warning, if the expectation is unfulfilled. This can be useful to be notified when the lint is no longer triggered.";

/// Where `allow_attributes` is discussed.
pub const ALLOW_ATTRIBUTE_ISSUE: &'static str = "https://github.com/rust-lang/rust-clippy/issues?q=is%3Aissue+allow_attributes";

/// The identifier of the `allow_attributes_without_reason` lint.
pub const ALLOW_ATTRIBUTE_WITHOUT_REASON_ID: &'static str = "allow_attributes_without_reason";

/// What `allow_attributes_without_reason` looks for.
pub const ALLOW_ATTRIBUTE_WITHOUT_REASON_DESCRIPTION: &'static str = "Checks for attributes that allow lints without a reason.";

/// Why what `allow_attributes_without_reason` looks for is bad.
pub const ALLOW_ATTRIBUTE_WITHOUT_REASON_WHATS_BAD: &'static str = "Justifying each allow helps readers understand the reasoning, and may allow removing allow attributes if their purpose is obsolete.";

/// Where `allow_attributes_without_reason` is discussed.
pub const ALLOW_ATTRIBUTE_WITHOUT_REASON_ISSUE: &'static str = "https://github.com/rust-lang/rust-clippy/issues?q=is%3Aissue+allow_attributes_without_reason";

/// The identifier of the `almost_complete_range` lint.
pub const ALMOST_COMPLETE_RANGE_ID: &'static str = "almost_complete_range";

/// What `almost_complete_range` looks for.
pub const ALMOST_COMPLETE_RANGE_DESCRIPTION: &'static str = "Checks for ranges which almost include the entire range of letters from ‘a’ to ‘z’ or digits from ‘0’ to ‘9’, but don’t because they’re a half open range.";

/// Why what `almost_complete_range` looks for is bad.
pub const ALMOST_COMPLETE_RANGE_WHATS_BAD: &'static str = "This ('a'..'z') is almost certainly a typo meant to include all letters.";

/// Where `almost_complete_range` is discussed.
pub const ALMOST_COMPLETE_RANGE_ISSUE: &'static str = "https://github.com/rust-lang/rust-clippy/issues?q=is%3Aissue+almost_complete_range";

/// The identifier of the `almost_swapped` lint.
pub const ALMOST_SWAPPED_ID: &'static str = "almost_swapped";

/// What `almost_swapped` looks for.
pub const ALMOST_SWAPPED_DESCRIPTION: &'static str = "Checks for foo = bar; bar = foo sequences.";

/// Why what `almost_swapped` looks for is bad.
pub const ALMOST_SWAPPED_WHATS_BAD: &'static str = "This looks like a failed attempt to swap.";

/// Where `almost_swapped` is discussed.
pub const ALMOST_SWAPPED_ISSUE: &'static str = "https://github.com/rust-lang/rust-clippy/issues?q=is%3Aissue+almost_swapped";

/// The identifier of the `approx_constant` lint.
pub const APPROX_CONSTANT_ID: &'static str = "approx_constant";

/// What `approx_constant` looks for.
pub const APPROX_CONSTANT_DESCRIPTION: &'static str = "Checks for floating point literals that approximate constants which are defined in std::f32::consts or std::f64::consts, respectively, suggesting to use the predefined constant.";

/// Why what `approx_constant` looks for is bad.
pub const APPROX_CONSTANT_WHATS_BAD: &'static str = "Usually, the definition in the standard library is more precise than what people come up with. If you find that your definition is actually more precise.";

/// Where `approx_constant` is discussed.
pub const APPROX_CONSTANT_ISSUE: &'static str = "https://github.com/rust-lang/rust-clippy/issues?q=is%3Aissue+approx_constant";

/// The identifier of the `arc_with_non_send_sync` lint.
pub const ARC_WITH_NO_SEND_SYNC_ID: &'static str = "arc_with_non_send_sync";

/// What `arc_with_non_send_sync` looks for.
pub const ARC_WITH_NO_SEND_SYNC_DESCRIPTION: &'static str = "This lint warns when you use Arc with a type that does not implement Send or Sync.";

/// Why what `arc_with_non_send_sync` looks for is bad.
pub const ARC_WITH_NO_SEND_SYNC_WHATS_BAD: &'static str = "Arc<T> is a thread-safe Rc<T> and guarantees that updates to the reference counter use atomic operations. To send an Arc<T> across thread boundaries and share ownership between multiple threads, T must be both Send and Sync, so either T should be made Send + Sync or a Rc should be used instead of an Arc.";

/// Where `arc_with_non_send_sync` is discussed.
pub const ARC_WITH_NO_SEND_SYNC_ISSUE: &'static str = "https://github.com/rust-lang/rust-clippy/issues?q=is%3Aissue+arc_with_non_send_sync";

/// The identifier of the `arithmetic_side_effects` lint.
pub const ARITHMETIC_SIDE_EFFECT_ID: &'static str = "arithmetic_side_effects";

/// What `arithmetic_side_effects` looks for.
pub const ARITHMETIC_SIDE_EFFECT_DESCRIPTION: &'static str = "Checks any kind of arithmetic operation of any type.";

/// Why what `arithmetic_side_effects` looks for is bad.
pub const ARITHMETIC_SIDE_EFFECT_WHATS_BAD: &'static str = "For integers, overflow will trigger a panic in debug builds or wrap the result in release mode; division by zero will cause a panic in either mode. As a result, it is desirable to explicitly call checked, wrapping or saturating arithmetic methods.";

/// Where `arithmetic_side_effects` is discussed.
pub const ARITHMETIC_SIDE_EFFECT_ISSUE: &'static str = "https://github.com/rust-lang/rust-clippy/issues?q=is%3Aissue+arithmetic_side_effects";

/// The identifier of the `absurd_extreme_comparisons` lint.
pub const ABSURD_EXTREME_COMPARISON_ID: &'static str = "absurd_extreme_comparisons";

/// What `absurd_extreme_comparisons` looks for.
pub const ABSURD_EXTREME_COMPARISON_DESCRIPTION: &'static str = "Checks for usage of items through absolute paths, like std::env::current_dir.";

/// Why what `absurd_extreme_comparisons` looks for is bad.
pub const ABSURD_EXTREME_COMPARISON_WHATS_BAD: &'static str = "An expression like min <= x may misleadingly imply that it is possible for x to be less than the minimum. Expressions like max < x are probably mistakes.";

/// Known problems of `absurd_extreme_comparisons`.
pub const ABSURD_EXTREME_COMPARISON_KNOW_PROBLEM: &'static str = "For usize the size of the current compile target will be assumed (e.g., 64 bits on 64 bit systems). This means code that uses such a comparison to detect target pointer width will trigger this lint. One can use mem::sizeof and compare its value or conditional compilation attributes like #[cfg(target_pointer_width = \"64\")] .. instead.";

/// The identifier of the `as_conversions` lint.
pub const AS_CONVERSIONS_ID: &'static str = "as_conversions";

/// What `as_conversions` looks for.
pub const AS_CONVERSIONS_DESCRIPTION: &'static str = "Checks for usage of as conversions.\n\nNote that this lint is specialized in linting every single use of as regardless of whether good alternatives exist or not.\n\nIf you want more precise lints for as, please consider using these separate lints: unnecessary_cast, cast_lossless/cast_possible_truncation/cast_possible_wrap/cast_precision_loss/cast_sign_loss, fn_to_numeric_cast(_with_truncation), char_lit_as_u8, ref_to_mut and ptr_as_ptr.\n\nThere is a good explanation the reason why this lint should work in this way and how it is useful in this issue.";

/// Why what `as_conversions` looks for is bad.
pub const AS_CONVERSIONS_WHATS_BAD: &'static str = "The as conversions will perform many kinds of conversions, including silently lossy conversions and dangerous coercions.\n\nThere are cases when it makes sense to use as, so the lint is Allow by default.";

/// Where `as_conversions` is discussed.
pub const AS_CONVERSIONS_ISSUE: &'static str = "https://github.com/rust-lang/rust-clippy/issues?q=is%3Aissue+as_conversions";

/// The identifier of the `as_underscore` lint.
pub const AS_UNDERSCORE_ID: &'static str = "as_underscore";

/// What `as_underscore` looks for.
pub const AS_UNDERSCORE_DESCRIPTION: &'static str = "Checks for usage of as conversions.\n\nNote that this lint is specialized in linting every single use of as regardless of whether good alternatives exist or not.\n\nIf you want more precise lints for as, please consider using these separate lints: unnecessary_cast, cast_lossless/cast_possible_truncation/cast_possible_wrap/cast_precision_loss/cast_sign_loss, fn_to_numeric_cast(_with_truncation), char_lit_as_u8, ref_to_mut and ptr_as_ptr.\n\nThere is a good explanation the reason why this lint should work in this way and how it is useful in this issue.";

/// Why what `as_underscore` looks for is bad.
pub const AS_UNDERSCORE_WHATS_BAD: &'static str = "The as conversions will perform many kinds of conversions, including silently lossy conversions and dangerous coercions.\n\nThere are cases when it makes sense to use as, so the lint is Allow by default.";

/// Where `as_underscore` is discussed.
pub const AS_UNDERSCORE_ISSUE: &'static str = "https://github.com/rust-lang/rust-clippy/issues?q=is%3Aissue+as_underscore";

/// The identifier of the `assertions_on_result_states` lint.
pub const ASSERTIONS_ON_RESULTS_STATES_ID: &'static str = "assertions_on_result_states";

/// What `assertions_on_result_states` looks for.
pub const ASSERTIONS_ON_RESULTS_STATES_DESCRIPTION: &'static str = "Checks for assert!(r.is_ok()) or assert!(r.is_err()) calls.";

/// Why what `assertions_on_result_states` looks for is bad.
pub const ASSERTIONS_ON_RESULTS_STATES_WHATS_BAD: &'static str = "This form of assertion does not show any of the information present in the Result other than which variant it isn’t.";

/// Known problems of `assertions_on_result_states`.
pub const ASSERTIONS_ON_RESULTS_STATES_KNOW_PROBLEM: &'static str = "The suggested replacement decreases the readability of code and log output.";

/// Where `assertions_on_result_states` is discussed.
pub const ASSERTIONS_ON_RESULTS_STATES_ISSUE: &'static str = "https://github.com/rust-lang/rust-clippy/issues?q=is%3Aissue+assertions_on_result_states";

/// The identifier of the `as_ptr_cast_mut` lint.
pub const AS_PTR_CAST_MUT_ID: &'static str = "as_ptr_cast_mut";

/// What `as_ptr_cast_mut` looks for.
pub const AS_PTR_CAST_MUT_DESCRIPTION: &'static str = "Checks for the result of a &self-taking as_ptr being cast to a mutable pointer.";

/// Why what `as_ptr_cast_mut` looks for is bad.
pub const AS_PTR_CAST_MUT_WHATS_BAD: &'static str = "Since as_ptr takes a &self, the pointer won’t have write permissions unless interior mutability is used, making it unlikely that having it as a mutable pointer is correct.";

/// Where `as_ptr_cast_mut` is discussed.
pub const AS_PTR_CAST_MUT_ISSUE: &'static str = "https://github.com/rust-lang/rust-clippy/issues?q=is%3Aissue+as_ptr_cast_mut";

/// The identifier of the `assertions_on_constants` lint.
pub const ASSERTIONS_ON_CONSTANTS_ID: &'static str = "assertions_on_constants";

/// What `assertions_on_constants` looks for.
pub const ASSERTIONS_ON_CONSTANTS_DESCRIPTION: &'static str = "Checks for assert!(true) and assert!(false) calls.";

/// Why what `assertions_on_constants` looks for is bad.
pub const ASSERTIONS_ON_CONSTANTS_WHATS_BAD: &'static str = "Will be optimized out by the compiler or should probably be replaced by a panic!() or unreachable!()";

/// Where `assertions_on_constants` is discussed.
pub const ASSERTIONS_ON_CONSTANTS_ISSUE: &'static str = "https://github.com/rust-lang/rust-clippy/issues?q=is%3Aissue+assertions_on_constants";

/// The identifier of the `assign_op_pattern` lint.
pub const ASSIGN_OF_PATTERN_ID: &'static str = "assign_op_pattern";

/// What `assign_op_pattern` looks for.
pub const ASSIGN_OP_PATTERN_DESCRIPTION: &'static str = "Checks for a = a op b or a = b commutative_op a patterns.";

/// Why what `assign_op_pattern` looks for is bad.
pub const ASSIGN_OP_PATTERN_WHATS_BAD: &'static str = "These can be written as the shorter a op= b.";

/// Known problems of `assign_op_pattern`.
pub const ASSIGN_OP_PATTERN_KNOW_PROBLEM: &'static str = "While forbidden by the spec, OpAssign traits may have implementations that differ from the regular Op impl.";

/// Where `assign_op_pattern` is discussed.
pub const ASSIGN_OP_PATTERN_ISSUE: &'static str = "https://github.com/rust-lang/rust-clippy/issues?q=is%3Aissue+assign_op_pattern";

/// The identifier of the `assigning_clones` lint.
pub const ASSIGNING_CLONE_ID: &'static str = "assigning_clones";

/// What `assigning_clones` looks for.
pub const ASSIGNING_CLONE_DESCRIPTION: &'static str = "Checks for code like foo = bar.clone();";

/// Why what `assigning_clones` looks for is bad.
pub const ASSIGNING_CLONE_WHATS_BAD: &'static str = "Custom Clone::clone_from() or ToOwned::clone_into implementations allow the objects to share resources and therefore avoid allocations.";

/// Known problems of `assigning_clones`.
pub const ASSIGNING_CLONE_KNOW_PROBLEM: &'static str = "While forbidden by the spec, OpAssign traits may have implementations that differ from the regular Op impl.";

/// Where `assigning_clones` is discussed.
pub const ASSIGNING_CLONE_ISSUE: &'static str = "https://github.com/rust-lang/rust-clippy/issues?q=is%3Aissue+assigning_clones";

/// The identifier of the `async_yields_async` lint.
pub const ASYNC_YIELDS_ASYNC_ID: &'static str = "async_yields_async";

/// What `async_yields_async` looks for.
pub const ASYNC_YIELDS_ASYNC_DESCRIPTION: &'static str = "Checks for async blocks that yield values of types that can themselves be awaited.";

/// Why what `async_yields_async` looks for is bad.
pub const ASYNC_YIELDS_ASYNC_WHATS_BAD: &'static str = "An await is likely missing.";

/// Known problems of `async_yields_async`.
pub const ASYNC_YIELDS_ASYNC_KNOW_PROBLEM: &'static str = "While forbidden by the spec, OpAssign traits may have implementations that differ from the regular Op impl.";

/// Where `async_yields_async` is discussed.
pub const ASYNC_YIELDS_ASYNC_ISSUE: &'static str = "https://github.com/rust-lang/rust-clippy/issues?q=is%3Aissue+async_yields_async";

/// The identifier of the `await_holding_invalid_type` lint.
pub const AWAIT_HOLDING_INVALID_TYPE_ID: &'static str = "await_holding_invalid_type";

/// What `await_holding_invalid_type` looks for.
pub const AWAIT_HOLDING_INVALID_DESCRIPTION: &'static str = "Allows users to configure types which should not be held across await suspension points.";

/// Why what `await_holding_invalid_type` looks for is bad.
pub const AWAIT_HOLDING_INVALID_WHATS_BAD: &'static str = "There are some types which are perfectly safe to use concurrently from a memory access perspective, but that will cause bugs at runtime if they are held in such a way.";

/// Known problems of `await_holding_invalid_type`.
pub const AWAIT_HOLDING_INVALID_KNOW_PROBLEM: &'static str = "While forbidden by the spec, OpAssign traits may have implementations that differ from the regular Op impl.";

/// Where `await_holding_invalid_type` is discussed.
pub const AWAIT_HOLDING_INVALID_ISSUE: &'static str = "https://github.com/rust-lang/rust-clippy/issues?q=is%3Aissue+await_holding_invalid_type";

/// The identifier of the `await_holding_lock` lint.
pub const AWAIT_HOLDING_LOCK_ID: &'static str = "await_holding_lock";

/// What `await_holding_lock` looks for.
pub const AWAIT_HOLDING_LOCK_DESCRIPTION: &'static str = "Checks for calls to await while holding a non-async-aware MutexGuard.";

/// Why what `await_holding_lock` looks for is bad.
pub const AWAIT_HOLDING_LOCK_WHATS_BAD: &'static str = "The Mutex types found in [std::sync][https://doc.rust-lang.org/stable/std/sync/] and parking_lot are not designed to operate in an async context across await points.\n\nThere are two potential solutions. One is to use an async-aware Mutex type. Many asynchronous foundation crates provide such a Mutex type. The other solution is to ensure the mutex is unlocked before calling await, either by introducing a scope or an explicit call to Drop::drop.";

/// Where `await_holding_lock` is discussed.
pub const AWAIT_HOLDING_LOCK_ISSUE: &'static str = "https://github.com/rust-lang/rust-clippy/issues?q=is%3Aissue+await_holding_lock";

/// The identifier of the `await_holding_refcell_ref` lint.
pub const AWAIT_HOLDING_REFCELL_REF_ID: &'static str = "await_holding_refcell_ref";

/// What `await_holding_refcell_ref` looks for.
pub const AWAIT_HOLDING_REFCELL_REF_DESCRIPTION: &'static str = "Checks for calls to await while holding a RefCell, Ref, or RefMut.";

/// Why what `await_holding_refcell_ref` looks for is bad.
pub const AWAIT_HOLDING_REFCELL_REF_WHATS_BAD: &'static str = "RefCell refs only check for exclusive mutable access at runtime. Holding a RefCell ref across an await suspension point risks panics from a mutable ref shared while other refs are outstanding.";

/// Known problems of `await_holding_refcell_ref`.
pub const AWAIT_HOLDING_REFCELL_REF_KNOW_PROBLEM: &'static str = "Will report false positive for explicitly dropped guards (#6446). A workaround for this is to wrap the .lock() call in a block instead of explicitly dropping the guard.";

/// Where `await_holding_refcell_ref` is discussed.
pub const AWAIT_HOLDING_REFCELL_REF_LOCK_ISSUE: &'static str = "https://github.com/rust-lang/rust-clippy/issues?q=is%3Aissue+await_holding_refcell_ref";

/// The identifier of the `bad_bit_mask` lint.
pub const BAD_BIT_MASK_ID: &'static str = "bad_bit_mask";

/// What `bad_bit_mask` looks for.
pub const BAD_BIT_MASK_ID_DESCRIPTION: &'static str = "Checks for incompatible bit masks in comparisons.";

/// Why what `bad_bit_mask` looks for is bad.
pub const BAD_BIT_MASK_WHATS_BAD: &'static str = "If the bits that the comparison cares about are always set to zero or one by the bit mask, the comparison is constant true or false (depending on mask, compared value, and operators).\n\nSo the code is actively misleading, and the only reason someone would write this intentionally is to win an underhanded Rust contest or create a test-case for this lint.";

/// Where `bad_bit_mask` is discussed.
pub const BAD_BIT_MASK_ISSUE: &'static str = "https://github.com/rust-lang/rust-clippy/issues?q=is%3Aissue+bad_bit_mask";

/// The identifier of the `big_endian_bytes` lint.
pub const BIG_ENDIAN_BYTES_ID: &'static str = "big_endian_bytes";

/// What `big_endian_bytes` looks for.
pub const BIG_ENDIAN_BYTES_DESCRIPTION: &'static str = "Checks for the usage of the to_be_bytes method and/or the function from_be_bytes.";

/// Why what `big_endian_bytes` looks for is bad.
pub const BIG_ENDIAN_BYTES_WHATS_BAD: &'static str = "To ensure use of little-endian or the target’s endianness rather than big-endian.";

/// Where `big_endian_bytes` is discussed.
pub const BIG_ENDIAN_BYTES_ISSUE: &'static str = "https://github.com/rust-lang/rust-clippy/issues?q=is%3Aissue+big_endian_bytes";

/// The identifier of the `bind_instead_of_map` lint.
pub const BIG_INSTEAD_OF_MAP_ID: &'static str = "bind_instead_of_map";

/// What `bind_instead_of_map` looks for.
pub const BIG_INSTEAD_OF_MAP_DESCRIPTION: &'static str = "Checks for usage of _.and_then(|x| Some(y)), _.and_then(|x| Ok(y)) or _.or_else(|x| Err(y)).";

/// Why what `bind_instead_of_map` looks for is bad.
pub const BIG_INSTEAD_OF_MAP_WHATS_BAD: &'static str = "This can be written more concisely as _.map(|x| y) or _.map_err(|x| y).";

/// Where `bind_instead_of_map` is discussed.
pub const BIG_INSTEAD_OF_MAP_ISSUE: &'static str = "https://github.com/rust-lang/rust-clippy/issues?q=is%3Aissue+bind_instead_of_map";

/// The identifier of the `blanket_clippy_restriction_lints` lint.
pub const BLANKET_CLIPPY_RESTRICTION_LINTS_ID: &'static str = "blanket_clippy_restriction_lints";

/// What `blanket_clippy_restriction_lints` looks for.
pub const BLANKET_CLIPPY_RESTRICTION_LINTS_DESCRIPTION: &'static str = "Checks for warn/deny/forbid attributes targeting the whole clippy::restriction category.";

/// Why what `blanket_clippy_restriction_lints` looks for is bad.
pub const BLANKET_CLIPPY_RESTRICTION_LINTS_WHATS_BAD: &'static str = "Restriction lints sometimes are in contrast with other lints or even go against idiomatic rust. These lints should only be enabled on a lint-by-lint basis and with careful consideration.";

/// Where `blanket_clippy_restriction_lints` is discussed.
pub const BLANKET_CLIPPY_RESTRICTION_LINTS_ISSUE: &'static str = "https://github.com/rust-lang/rust-clippy/issues?q=is%3Aissue+blanket_clippy_restriction_lints";

/// The policies of all lints on record, in the order in which they are
/// written to a file.
pub open spec fn all_policies() -> Seq<LintPolicy> {
    seq![
        policy(
            ABSOLUTE_PATH_ID,
            ABSOLUTE_PATH_DESCRIPTION,
            ABSOLUTE_PATH_WHATS_BAD,
            Some(ABSOLUTE_PATH_KNOW_PROBLEM),
            true,
            BaseSeverity::Allow,
            false,
            BaseSeverity::Allow,
            BaseSeverity::Warn,
            BaseSeverity::Deny,
            LintGroup::Restriction,
            Some(ABSOLUTE_PATH_ISSUE),
            Applicability::Unspecified,
        ),
        policy(
            ALLOC_INSTEAD_OF_CORE_ID,
            ALLOC_INSTEAD_OF_CORE_DESCRIPTION,
            ALLOC_INSTEAD_OF_CORE_WHATS_BAD,
            Some(ALLOC_INSTEAD_OF_CORE_KNOW_PROBLEM),
            true,
            BaseSeverity::Allow,
            false,
            BaseSeverity::Warn,
            BaseSeverity::Warn,
            BaseSeverity::Deny,
            LintGroup::Restriction,
            Some(ALLOC_INSTEAD_OF_CORE_ISSUE),
            Applicability::MachineApplicable,
        ),
        policy(
            ALLOW_ATTRIBUTE_ID,
            ALLOW_ATTRIBUTE_DESCRIPTION,
            ALLOW_ATTRIBUTE_WHATS_BAD,
            None,
            true,
            BaseSeverity::Allow,
            false,
            BaseSeverity::Warn,
            BaseSeverity::Warn,
            BaseSeverity::Deny,
            LintGroup::Restriction,
            Some(ALLOW_ATTRIBUTE_ISSUE),
            Applicability::MachineApplicable,
        ),
        policy(
            ALLOW_ATTRIBUTE_WITHOUT_REASON_ID,
            ALLOW_ATTRIBUTE_WITHOUT_REASON_DESCRIPTION,
            ALLOW_ATTRIBUTE_WITHOUT_REASON_WHATS_BAD,
            None,
            true,
            BaseSeverity::Allow,
            false,
            BaseSeverity::Warn,
            BaseSeverity::Warn,
            BaseSeverity::Deny,
            LintGroup::Restriction,
            Some(ALLOW_ATTRIBUTE_WITHOUT_REASON_ISSUE),
            Applicability::Unspecified,
        ),
        policy(
            ALMOST_COMPLETE_RANGE_ID,
            ALMOST_COMPLETE_RANGE_DESCRIPTION,
            ALMOST_COMPLETE_RANGE_WHATS_BAD,
            None,
            true,
            BaseSeverity::Warn,
            false,
            BaseSeverity::Warn,
            BaseSeverity::Warn,
            BaseSeverity::Deny,
            LintGroup::Suspicious,
            Some(ALMOST_COMPLETE_RANGE_ISSUE),
            Applicability::MaybeIncorrect,
        ),
        policy(
            ALMOST_SWAPPED_ID,
            ALMOST_SWAPPED_DESCRIPTION,
            ALMOST_SWAPPED_WHATS_BAD,
            None,
            true,
            BaseSeverity::Deny,
            false,
            BaseSeverity::Deny,
            BaseSeverity::Deny,
            BaseSeverity::Deny,
            LintGroup::Correctness,
            Some(ALMOST_SWAPPED_ISSUE),
            Applicability::MaybeIncorrect,
        ),
        policy(
            APPROX_CONSTANT_ID,
            APPROX_CONSTANT_DESCRIPTION,
            APPROX_CONSTANT_WHATS_BAD,
            None,
            true,
            BaseSeverity::Deny,
            false,
            BaseSeverity::Deny,
            BaseSeverity::Deny,
            BaseSeverity::Deny,
            LintGroup::Correctness,
            Some(APPROX_CONSTANT_ISSUE),
            Applicability::Unspecified,
        ),
        policy(
            ARC_WITH_NO_SEND_SYNC_ID,
            ARC_WITH_NO_SEND_SYNC_DESCRIPTION,
            ARC_WITH_NO_SEND_SYNC_WHATS_BAD,
            None,
            true,
            BaseSeverity::Warn,
            false,
            BaseSeverity::Warn,
            BaseSeverity::Warn,
            BaseSeverity::Deny,
            LintGroup::Suspicious,
            Some(ARC_WITH_NO_SEND_SYNC_ISSUE),
            Applicability::Unspecified,
        ),
        policy(
            ARITHMETIC_SIDE_EFFECT_ID,
            ARITHMETIC_SIDE_EFFECT_DESCRIPTION,
            ARITHMETIC_SIDE_EFFECT_WHATS_BAD,
            None,
            true,
            BaseSeverity::Allow,
            false,
            BaseSeverity::Warn,
            BaseSeverity::Warn,
            BaseSeverity::Deny,
            LintGroup::Restriction,
            Some(ARITHMETIC_SIDE_EFFECT_ISSUE),
            Applicability::Unspecified,
        ),
        policy(
            ABSURD_EXTREME_COMPARISON_ID,
            ABSURD_EXTREME_COMPARISON_DESCRIPTION,
            ABSURD_EXTREME_COMPARISON_WHATS_BAD,
            Some(ABSURD_EXTREME_COMPARISON_KNOW_PROBLEM),
            true,
            BaseSeverity::Deny,
            false,
            BaseSeverity::Deny,
            BaseSeverity::Deny,
            BaseSeverity::Deny,
            LintGroup::Correctness,
            Some(ARITHMETIC_SIDE_EFFECT_ISSUE),
            Applicability::Unspecified,
        ),
        policy(
            AS_CONVERSIONS_ID,
            AS_CONVERSIONS_DESCRIPTION,
            AS_CONVERSIONS_WHATS_BAD,
            None,
            true,
            BaseSeverity::Allow,
            false,
            BaseSeverity::Warn,
            BaseSeverity::Warn,
            BaseSeverity::Deny,
            LintGroup::Restriction,
            Some(AS_CONVERSIONS_ISSUE),
            Applicability::Unspecified,
        ),
        policy(
            AS_UNDERSCORE_ID,
            AS_UNDERSCORE_DESCRIPTION,
            AS_UNDERSCORE_WHATS_BAD,
            None,
            true,
            BaseSeverity::Deny,
            false,
            BaseSeverity::Deny,
            BaseSeverity::Deny,
            BaseSeverity::Deny,
            LintGroup::Restriction,
            Some(AS_UNDERSCORE_ISSUE),
            Applicability::MachineApplicable,
        ),
        policy(
            ASSERTIONS_ON_RESULTS_STATES_ID,
            ASSERTIONS_ON_RESULTS_STATES_DESCRIPTION,
            ASSERTIONS_ON_RESULTS_STATES_WHATS_BAD,
            Some(ASSERTIONS_ON_RESULTS_STATES_KNOW_PROBLEM),
            true,
            BaseSeverity::Allow,
            false,
            BaseSeverity::Warn,
            BaseSeverity::Warn,
            BaseSeverity::Deny,
            LintGroup::Restriction,
            Some(ASSERTIONS_ON_RESULTS_STATES_ISSUE),
            Applicability::MachineApplicable,
        ),
        policy(
            AS_PTR_CAST_MUT_ID,
            AS_PTR_CAST_MUT_DESCRIPTION,
            AS_PTR_CAST_MUT_WHATS_BAD,
            None,
            true,
            BaseSeverity::Allow,
            false,
            BaseSeverity::Allow,
            BaseSeverity::Warn,
            BaseSeverity::Deny,
            LintGroup::Nursery,
            Some(AS_PTR_CAST_MUT_ISSUE),
            Applicability::MaybeIncorrect,
        ),
        policy(
            ASSERTIONS_ON_CONSTANTS_ID,
            ASSERTIONS_ON_CONSTANTS_DESCRIPTION,
            ASSERTIONS_ON_CONSTANTS_WHATS_BAD,
            None,
            true,
            BaseSeverity::Warn,
            false,
            BaseSeverity::Warn,
            BaseSeverity::Deny,
            BaseSeverity::Deny,
            LintGroup::Style,
            Some(ASSERTIONS_ON_CONSTANTS_ISSUE),
            Applicability::Unspecified,
        ),
        policy(
            ASSIGN_OF_PATTERN_ID,
            ASSIGN_OP_PATTERN_DESCRIPTION,
            ASSIGN_OP_PATTERN_WHATS_BAD,
            Some(ASSIGN_OP_PATTERN_KNOW_PROBLEM),
            true,
            BaseSeverity::Warn,
            false,
            BaseSeverity::Warn,
            BaseSeverity::Warn,
            BaseSeverity::Deny,
            LintGroup::Style,
            Some(ASSIGN_OP_PATTERN_ISSUE),
            Applicability::MachineApplicable,
        ),
        policy(
            ASSIGNING_CLONE_ID,
            ASSIGNING_CLONE_DESCRIPTION,
            ASSIGNING_CLONE_WHATS_BAD,
            Some(ASSIGNING_CLONE_KNOW_PROBLEM),
            true,
            BaseSeverity::Allow,
            false,
            BaseSeverity::Warn,
            BaseSeverity::Warn,
            BaseSeverity::Deny,
            LintGroup::Pedantic,
            Some(ASSIGNING_CLONE_ISSUE),
            Applicability::Unspecified,
        ),
        policy(
            ASYNC_YIELDS_ASYNC_ID,
            ASYNC_YIELDS_ASYNC_DESCRIPTION,
            ASYNC_YIELDS_ASYNC_WHATS_BAD,
            Some(ASYNC_YIELDS_ASYNC_KNOW_PROBLEM),
            true,
            BaseSeverity::Deny,
            false,
            BaseSeverity::Warn,
            BaseSeverity::Warn,
            BaseSeverity::Deny,
            LintGroup::Correctness,
            Some(ASYNC_YIELDS_ASYNC_ISSUE),
            Applicability::MaybeIncorrect,
        ),
        policy(
            AWAIT_HOLDING_INVALID_TYPE_ID,
            AWAIT_HOLDING_INVALID_DESCRIPTION,
            AWAIT_HOLDING_INVALID_WHATS_BAD,
            Some(AWAIT_HOLDING_INVALID_KNOW_PROBLEM),
            true,
            BaseSeverity::Warn,
            false,
            BaseSeverity::Deny,
            BaseSeverity::Deny,
            BaseSeverity::Deny,
            LintGroup::Suspicious,
            Some(AWAIT_HOLDING_INVALID_ISSUE),
            Applicability::Unspecified,
        ),
        policy(
            AWAIT_HOLDING_LOCK_ID,
            AWAIT_HOLDING_LOCK_DESCRIPTION,
            AWAIT_HOLDING_LOCK_WHATS_BAD,
            Some(ASSIGNING_CLONE_KNOW_PROBLEM),
            true,
            BaseSeverity::Warn,
            false,
            BaseSeverity::Warn,
            BaseSeverity::Deny,
            BaseSeverity::Deny,
            LintGroup::Suspicious,
            Some(AWAIT_HOLDING_LOCK_ISSUE),
            Applicability::Unspecified,
        ),
        policy(
            AWAIT_HOLDING_REFCELL_REF_ID,
            AWAIT_HOLDING_REFCELL_REF_DESCRIPTION,
            AWAIT_HOLDING_REFCELL_REF_WHATS_BAD,
            Some(AWAIT_HOLDING_REFCELL_REF_KNOW_PROBLEM),
            true,
            BaseSeverity::Warn,
            false,
            BaseSeverity::Warn,
            BaseSeverity::Warn,
            BaseSeverity::Deny,
            LintGroup::Suspicious,
            Some(AWAIT_HOLDING_REFCELL_REF_LOCK_ISSUE),
            Applicability::Unspecified,
        ),
        policy(
            BAD_BIT_MASK_ID,
            BAD_BIT_MASK_ID_DESCRIPTION,
            BAD_BIT_MASK_WHATS_BAD,
            None,
            true,
            BaseSeverity::Deny,
            false,
            BaseSeverity::Deny,
            BaseSeverity::Deny,
            BaseSeverity::Deny,
            LintGroup::Correctness,
            Some(BAD_BIT_MASK_ISSUE),
            Applicability::Unspecified,
        ),
        policy(
            BIG_ENDIAN_BYTES_ID,
            BIG_ENDIAN_BYTES_DESCRIPTION,
            BIG_ENDIAN_BYTES_WHATS_BAD,
            None,
            true,
            BaseSeverity::Allow,
            false,
            BaseSeverity::Warn,
            BaseSeverity::Warn,
            BaseSeverity::Warn,
            LintGroup::Restriction,
            Some(BIG_ENDIAN_BYTES_ISSUE),
            Applicability::Unspecified,
        ),
        policy(
            BIG_INSTEAD_OF_MAP_ID,
            BIG_INSTEAD_OF_MAP_DESCRIPTION,
            BIG_INSTEAD_OF_MAP_WHATS_BAD,
            None,
            true,
            BaseSeverity::Warn,
            false,
            BaseSeverity::Warn,
            BaseSeverity::Warn,
            BaseSeverity::Deny,
            LintGroup::Complexity,
            Some(BIG_INSTEAD_OF_MAP_ISSUE),
            Applicability::MachineApplicable,
        ),
        policy(
            BLANKET_CLIPPY_RESTRICTION_LINTS_ID,
            BLANKET_CLIPPY_RESTRICTION_LINTS_DESCRIPTION,
            BLANKET_CLIPPY_RESTRICTION_LINTS_WHATS_BAD,
            None,
            true,
            BaseSeverity::Warn,
            false,
            BaseSeverity::Warn,
            BaseSeverity::Deny,
            BaseSeverity::Deny,
            LintGroup::Suspicious,
            Some(BLANKET_CLIPPY_RESTRICTION_LINTS_ISSUE),
            Applicability::Unspecified,
        ),
    ]
}

/// The records of all lints under `level`, in the order of the table.
pub open spec fn catalog(level: ClippyLevel) -> Seq<ClippyLint> {
    all_policies().map_values(|p: LintPolicy| p.record(level))
}

/// The identifiers of `lints`, in order.
pub open spec fn ids(lints: Seq<ClippyLint>) -> Seq<Seq<char>> {
    lints.map_values(|l: ClippyLint| l.id@)
}

/// The table of policies.
pub fn policies() -> (v: Vec<LintPolicy>)
    ensures
        v@ == all_policies(),
{
    let mut v: Vec<LintPolicy> = Vec::new();
    v.push(
        LintPolicy::new(
            ABSOLUTE_PATH_ID,
            ABSOLUTE_PATH_DESCRIPTION,
            ABSOLUTE_PATH_WHATS_BAD,
            Some(ABSOLUTE_PATH_KNOW_PROBLEM),
            true,
            BaseSeverity::Allow,
            false,
            BaseSeverity::Allow,
            BaseSeverity::Warn,
            BaseSeverity::Deny,
            LintGroup::Restriction,
            Some(ABSOLUTE_PATH_ISSUE),
            Applicability::Unspecified,
        ),
    );
    v.push(
        LintPolicy::new(
            ALLOC_INSTEAD_OF_CORE_ID,
            ALLOC_INSTEAD_OF_CORE_DESCRIPTION,
            ALLOC_INSTEAD_OF_CORE_WHATS_BAD,
            Some(ALLOC_INSTEAD_OF_CORE_KNOW_PROBLEM),
            true,
            BaseSeverity::Allow,
            false,
            BaseSeverity::Warn,
            BaseSeverity::Warn,
            BaseSeverity::Deny,
            LintGroup::Restriction,
            Some(ALLOC_INSTEAD_OF_CORE_ISSUE),
            Applicability::MachineApplicable,
        ),
    );
    v.push(
        LintPolicy::new(
            ALLOW_ATTRIBUTE_ID,
            ALLOW_ATTRIBUTE_DESCRIPTION,
            ALLOW_ATTRIBUTE_WHATS_BAD,
            None,
            true,
            BaseSeverity::Allow,
            false,
            BaseSeverity::Warn,
            BaseSeverity::Warn,
            BaseSeverity::Deny,
            LintGroup::Restriction,
            Some(ALLOW_ATTRIBUTE_ISSUE),
            Applicability::MachineApplicable,
        ),
    );
    v.push(
        LintPolicy::new(
            ALLOW_ATTRIBUTE_WITHOUT_REASON_ID,
            ALLOW_ATTRIBUTE_WITHOUT_REASON_DESCRIPTION,
            ALLOW_ATTRIBUTE_WITHOUT_REASON_WHATS_BAD,
            None,
            true,
            BaseSeverity::Allow,
            false,
            BaseSeverity::Warn,
            BaseSeverity::Warn,
            BaseSeverity::Deny,
            LintGroup::Restriction,
            Some(ALLOW_ATTRIBUTE_WITHOUT_REASON_ISSUE),
            Applicability::Unspecified,
        ),
    );
    v.push(
        LintPolicy::new(
            ALMOST_COMPLETE_RANGE_ID,
            ALMOST_COMPLETE_RANGE_DESCRIPTION,
            ALMOST_COMPLETE_RANGE_WHATS_BAD,
            None,
            true,
            BaseSeverity::Warn,
            false,
            BaseSeverity::Warn,
            BaseSeverity::Warn,
            BaseSeverity::Deny,
            LintGroup::Suspicious,
            Some(ALMOST_COMPLETE_RANGE_ISSUE),
            Applicability::MaybeIncorrect,
        ),
    );
    v.push(
        LintPolicy::new(
            ALMOST_SWAPPED_ID,
            ALMOST_SWAPPED_DESCRIPTION,
            ALMOST_SWAPPED_WHATS_BAD,
            None,
            true,
            BaseSeverity::Deny,
            false,
            BaseSeverity::Deny,
            BaseSeverity::Deny,
            BaseSeverity::Deny,
            LintGroup::Correctness,
            Some(ALMOST_SWAPPED_ISSUE),
            Applicability::MaybeIncorrect,
        ),
    );
    v.push(
        LintPolicy::new(
            APPROX_CONSTANT_ID,
            APPROX_CONSTANT_DESCRIPTION,
            APPROX_CONSTANT_WHATS_BAD,
            None,
            true,
            BaseSeverity::Deny,
            false,
            BaseSeverity::Deny,
            BaseSeverity::Deny,
            BaseSeverity::Deny,
            LintGroup::Correctness,
            Some(APPROX_CONSTANT_ISSUE),
            Applicability::Unspecified,
        ),
    );
    v.push(
        LintPolicy::new(
            ARC_WITH_NO_SEND_SYNC_ID,
            ARC_WITH_NO_SEND_SYNC_DESCRIPTION,
            ARC_WITH_NO_SEND_SYNC_WHATS_BAD,
            None,
            true,
            BaseSeverity::Warn,
            false,
            BaseSeverity::Warn,
            BaseSeverity::Warn,
            BaseSeverity::Deny,
            LintGroup::Suspicious,
            Some(ARC_WITH_NO_SEND_SYNC_ISSUE),
            Applicability::Unspecified,
        ),
    );
    v.push(
        LintPolicy::new(
            ARITHMETIC_SIDE_EFFECT_ID,
            ARITHMETIC_SIDE_EFFECT_DESCRIPTION,
            ARITHMETIC_SIDE_EFFECT_WHATS_BAD,
            None,
            true,
            BaseSeverity::Allow,
            false,
            BaseSeverity::Warn,
            BaseSeverity::Warn,
            BaseSeverity::Deny,
            LintGroup::Restriction,
            Some(ARITHMETIC_SIDE_EFFECT_ISSUE),
            Applicability::Unspecified,
        ),
    );
    v.push(
        LintPolicy::new(
            ABSURD_EXTREME_COMPARISON_ID,
            ABSURD_EXTREME_COMPARISON_DESCRIPTION,
            ABSURD_EXTREME_COMPARISON_WHATS_BAD,
            Some(ABSURD_EXTREME_COMPARISON_KNOW_PROBLEM),
            true,
            BaseSeverity::Deny,
            false,
            BaseSeverity::Deny,
            BaseSeverity::Deny,
            BaseSeverity::Deny,
            LintGroup::Correctness,
            Some(ARITHMETIC_SIDE_EFFECT_ISSUE),
            Applicability::Unspecified,
        ),
    );
    v.push(
        LintPolicy::new(
            AS_CONVERSIONS_ID,
            AS_CONVERSIONS_DESCRIPTION,
            AS_CONVERSIONS_WHATS_BAD,
            None,
            true,
            BaseSeverity::Allow,
            false,
            BaseSeverity::Warn,
            BaseSeverity::Warn,
            BaseSeverity::Deny,
            LintGroup::Restriction,
            Some(AS_CONVERSIONS_ISSUE),
            Applicability::Unspecified,
        ),
    );
    v.push(
        LintPolicy::new(
            AS_UNDERSCORE_ID,
            AS_UNDERSCORE_DESCRIPTION,
            AS_UNDERSCORE_WHATS_BAD,
            None,
            true,
            BaseSeverity::Deny,
            false,
            BaseSeverity::Deny,
            BaseSeverity::Deny,
            BaseSeverity::Deny,
            LintGroup::Restriction,
            Some(AS_UNDERSCORE_ISSUE),
            Applicability::MachineApplicable,
        ),
    );
    v.push(
        LintPolicy::new(
            ASSERTIONS_ON_RESULTS_STATES_ID,
            ASSERTIONS_ON_RESULTS_STATES_DESCRIPTION,
            ASSERTIONS_ON_RESULTS_STATES_WHATS_BAD,
            Some(ASSERTIONS_ON_RESULTS_STATES_KNOW_PROBLEM),
            true,
            BaseSeverity::Allow,
            false,
            BaseSeverity::Warn,
            BaseSeverity::Warn,
            BaseSeverity::Deny,
            LintGroup::Restriction,
            Some(ASSERTIONS_ON_RESULTS_STATES_ISSUE),
            Applicability::MachineApplicable,
        ),
    );
    v.push(
        LintPolicy::new(
            AS_PTR_CAST_MUT_ID,
            AS_PTR_CAST_MUT_DESCRIPTION,
            AS_PTR_CAST_MUT_WHATS_BAD,
            None,
            true,
            BaseSeverity::Allow,
            false,
            BaseSeverity::Allow,
            BaseSeverity::Warn,
            BaseSeverity::Deny,
            LintGroup::Nursery,
            Some(AS_PTR_CAST_MUT_ISSUE),
            Applicability::MaybeIncorrect,
        ),
    );
    v.push(
        LintPolicy::new(
            ASSERTIONS_ON_CONSTANTS_ID,
            ASSERTIONS_ON_CONSTANTS_DESCRIPTION,
            ASSERTIONS_ON_CONSTANTS_WHATS_BAD,
            None,
            true,
            BaseSeverity::Warn,
            false,
            BaseSeverity::Warn,
            BaseSeverity::Deny,
            BaseSeverity::Deny,
            LintGroup::Style,
            Some(ASSERTIONS_ON_CONSTANTS_ISSUE),
            Applicability::Unspecified,
        ),
    );
    v.push(
        LintPolicy::new(
            ASSIGN_OF_PATTERN_ID,
            ASSIGN_OP_PATTERN_DESCRIPTION,
            ASSIGN_OP_PATTERN_WHATS_BAD,
            Some(ASSIGN_OP_PATTERN_KNOW_PROBLEM),
            true,
            BaseSeverity::Warn,
            false,
            BaseSeverity::Warn,
            BaseSeverity::Warn,
            BaseSeverity::Deny,
            LintGroup::Style,
            Some(ASSIGN_OP_PATTERN_ISSUE),
            Applicability::MachineApplicable,
        ),
    );
    v.push(
        LintPolicy::new(
            ASSIGNING_CLONE_ID,
            ASSIGNING_CLONE_DESCRIPTION,
            ASSIGNING_CLONE_WHATS_BAD,
            Some(ASSIGNING_CLONE_KNOW_PROBLEM),
            true,
            BaseSeverity::Allow,
            false,
            BaseSeverity::Warn,
            BaseSeverity::Warn,
            BaseSeverity::Deny,
            LintGroup::Pedantic,
            Some(ASSIGNING_CLONE_ISSUE),
            Applicability::Unspecified,
        ),
    );
    v.push(
        LintPolicy::new(
            ASYNC_YIELDS_ASYNC_ID,
            ASYNC_YIELDS_ASYNC_DESCRIPTION,
            ASYNC_YIELDS_ASYNC_WHATS_BAD,
            Some(ASYNC_YIELDS_ASYNC_KNOW_PROBLEM),
            true,
            BaseSeverity::Deny,
            false,
            BaseSeverity::Warn,
            BaseSeverity::Warn,
            BaseSeverity::Deny,
            LintGroup::Correctness,
            Some(ASYNC_YIELDS_ASYNC_ISSUE),
            Applicability::MaybeIncorrect,
        ),
    );
    v.push(
        LintPolicy::new(
            AWAIT_HOLDING_INVALID_TYPE_ID,
            AWAIT_HOLDING_INVALID_DESCRIPTION,
            AWAIT_HOLDING_INVALID_WHATS_BAD,
            Some(AWAIT_HOLDING_INVALID_KNOW_PROBLEM),
            true,
            BaseSeverity::Warn,
            false,
            BaseSeverity::Deny,
            BaseSeverity::Deny,
            BaseSeverity::Deny,
            LintGroup::Suspicious,
            Some(AWAIT_HOLDING_INVALID_ISSUE),
            Applicability::Unspecified,
        ),
    );
    v.push(
        LintPolicy::new(
            AWAIT_HOLDING_LOCK_ID,
            AWAIT_HOLDING_LOCK_DESCRIPTION,
            AWAIT_HOLDING_LOCK_WHATS_BAD,
            Some(ASSIGNING_CLONE_KNOW_PROBLEM),
            true,
            BaseSeverity::Warn,
            false,
            BaseSeverity::Warn,
            BaseSeverity::Deny,
            BaseSeverity::Deny,
            LintGroup::Suspicious,
            Some(AWAIT_HOLDING_LOCK_ISSUE),
            Applicability::Unspecified,
        ),
    );
    v.push(
        LintPolicy::new(
            AWAIT_HOLDING_REFCELL_REF_ID,
            AWAIT_HOLDING_REFCELL_REF_DESCRIPTION,
            AWAIT_HOLDING_REFCELL_REF_WHATS_BAD,
            Some(AWAIT_HOLDING_REFCELL_REF_KNOW_PROBLEM),
            true,
            BaseSeverity::Warn,
            false,
            BaseSeverity::Warn,
            BaseSeverity::Warn,
            BaseSeverity::Deny,
            LintGroup::Suspicious,
            Some(AWAIT_HOLDING_REFCELL_REF_LOCK_ISSUE),
            Applicability::Unspecified,
        ),
    );
    v.push(
        LintPolicy::new(
            BAD_BIT_MASK_ID,
            BAD_BIT_MASK_ID_DESCRIPTION,
            BAD_BIT_MASK_WHATS_BAD,
            None,
            true,
            BaseSeverity::Deny,
            false,
            BaseSeverity::Deny,
            BaseSeverity::Deny,
            BaseSeverity::Deny,
            LintGroup::Correctness,
            Some(BAD_BIT_MASK_ISSUE),
            Applicability::Unspecified,
        ),
    );
    v.push(
        LintPolicy::new(
            BIG_ENDIAN_BYTES_ID,
            BIG_ENDIAN_BYTES_DESCRIPTION,
            BIG_ENDIAN_BYTES_WHATS_BAD,
            None,
            true,
            BaseSeverity::Allow,
            false,
            BaseSeverity::Warn,
            BaseSeverity::Warn,
            BaseSeverity::Warn,
            LintGroup::Restriction,
            Some(BIG_ENDIAN_BYTES_ISSUE),
            Applicability::Unspecified,
        ),
    );
    v.push(
        LintPolicy::new(
            BIG_INSTEAD_OF_MAP_ID,
            BIG_INSTEAD_OF_MAP_DESCRIPTION,
            BIG_INSTEAD_OF_MAP_WHATS_BAD,
            None,
            true,
            BaseSeverity::Warn,
            false,
            BaseSeverity::Warn,
            BaseSeverity::Warn,
            BaseSeverity::Deny,
            LintGroup::Complexity,
            Some(BIG_INSTEAD_OF_MAP_ISSUE),
            Applicability::MachineApplicable,
        ),
    );
    v.push(
        LintPolicy::new(
            BLANKET_CLIPPY_RESTRICTION_LINTS_ID,
            BLANKET_CLIPPY_RESTRICTION_LINTS_DESCRIPTION,
            BLANKET_CLIPPY_RESTRICTION_LINTS_WHATS_BAD,
            None,
            true,
            BaseSeverity::Warn,
            false,
            BaseSeverity::Warn,
            BaseSeverity::Deny,
            BaseSeverity::Deny,
            LintGroup::Suspicious,
            Some(BLANKET_CLIPPY_RESTRICTION_LINTS_ISSUE),
            Applicability::Unspecified,
        ),
    );
    assert(v@ =~= all_policies());
    v
}

/// The records of all lints under `level`.
pub fn catalog_for(level: &ClippyLevel) -> (lints: Vec<ClippyLint>)
    ensures
        lints@ == catalog(*level),
        forall|i: int| 0 <= i < lints.len() ==> (#[trigger] lints[i]).wf(),
{
    let table = policies();
    let mut lints: Vec<ClippyLint> = Vec::new();
    let mut i: usize = 0;
    while i < table.len()
        invariant
            i <= table.len(),
            table@ == all_policies(),
            lints.len() == i,
            forall|j: int| 0 <= j < i ==> (#[trigger] lints[j]) == table[j].record(*level),
            forall|j: int| 0 <= j < i ==> (#[trigger] lints[j]).wf(),
        decreases table.len() - i,
    {
        lints.push(table[i].lint(level));
        i += 1;
    }
    assert(lints@ =~= catalog(*level));
    lints
}

/// Every profile has a policy for every lint: the catalogs of any two
/// profiles are not empty, have the same length, and name the same lint at
/// every position, so they name the same set of lints.
pub proof fn lemma_catalogs_name_the_same_lints(a: ClippyLevel, b: ClippyLevel)
    ensures
        catalog(a).len() > 0,
        catalog(a).len() == catalog(b).len(),
        forall|i: int| 0 <= i < catalog(a).len() ==> (#[trigger] catalog(a)[i]).id == catalog(b)[i].id,
        ids(catalog(a)) == ids(catalog(b)),
        ids(catalog(a)).to_set() == ids(catalog(b)).to_set(),
{
    assert(all_policies().len() == 25);
    assert(ids(catalog(a)) =~= ids(catalog(b)));
}

/// No two lints on record share an identifier.
pub proof fn lemma_catalog_ids_distinct(level: ClippyLevel)
    ensures
        ids(catalog(level)).no_duplicates(),
{
    reveal_strlit("absolute_paths");
    reveal_strlit("alloc_instead_of_core");
    reveal_strlit("allow_attributes");
    reveal_strlit("allow_attributes_without_reason");
    reveal_strlit("almost_complete_range");
    reveal_strlit("almost_swapped");
    reveal_strlit("approx_constant");
    reveal_strlit("arc_with_non_send_sync");
    reveal_strlit("arithmetic_side_effects");
    reveal_strlit("absurd_extreme_comparisons");
    reveal_strlit("as_conversions");
    reveal_strlit("as_underscore");
    reveal_strlit("assertions_on_result_states");
    reveal_strlit("as_ptr_cast_mut");
    reveal_strlit("assertions_on_constants");
    reveal_strlit("assign_op_pattern");
    reveal_strlit("assigning_clones");
    reveal_strlit("async_yields_async");
    reveal_strlit("await_holding_invalid_type");
    reveal_strlit("await_holding_lock");
    reveal_strlit("await_holding_refcell_ref");
    reveal_strlit("bad_bit_mask");
    reveal_strlit("big_endian_bytes");
    reveal_strlit("bind_instead_of_map");
    reveal_strlit("blanket_clippy_restriction_lints");
    let names = ids(catalog(level));
    assert(names.len() == 25);
    assert forall|i: int, j: int| 0 <= i < names.len() && 0 <= j < names.len() && i != j implies names[i]
        != names[j] by {
        assert(names[i] == all_policies()[i].id@);
        assert(names[j] == all_policies()[j].id@);
        if names[i].len() == names[j].len() {
            // identifiers of one length differ at one of these places
            assert(names[i][2] != names[j][2]);
        }
    }
}

/// Every identifier on record is one line.
pub proof fn lemma_catalog_ids_one_line(level: ClippyLevel)
    ensures
        forall|i: int| 0 <= i < catalog(level).len() ==> one_line((#[trigger] catalog(level)[i]).id@),
{
    reveal_strlit("absolute_paths");
    reveal_strlit("alloc_instead_of_core");
    reveal_strlit("allow_attributes");
    reveal_strlit("allow_attributes_without_reason");
    reveal_strlit("almost_complete_range");
    reveal_strlit("almost_swapped");
    reveal_strlit("approx_constant");
    reveal_strlit("arc_with_non_send_sync");
    reveal_strlit("arithmetic_side_effects");
    reveal_strlit("absurd_extreme_comparisons");
    reveal_strlit("as_conversions");
    reveal_strlit("as_underscore");
    reveal_strlit("assertions_on_result_states");
    reveal_strlit("as_ptr_cast_mut");
    reveal_strlit("assertions_on_constants");
    reveal_strlit("assign_op_pattern");
    reveal_strlit("assigning_clones");
    reveal_strlit("async_yields_async");
    reveal_strlit("await_holding_invalid_type");
    reveal_strlit("await_holding_lock");
    reveal_strlit("await_holding_refcell_ref");
    reveal_strlit("bad_bit_mask");
    reveal_strlit("big_endian_bytes");
    reveal_strlit("bind_instead_of_map");
    reveal_strlit("blanket_clippy_restriction_lints");
    assert(catalog(level).len() == 25);
    assert forall|i: int| 0 <= i < catalog(level).len() implies one_line(
        (#[trigger] catalog(level)[i]).id@,
    ) by {
        assert(catalog(level)[i].id@ == all_policies()[i].id@);
    }
}

} // verus!
