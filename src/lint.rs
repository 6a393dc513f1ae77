//! Completion of lint names inside an attribute such as `#[allow(...)]`.

use vstd::prelude::*;

verus! {

/// A lint that can be offered, with a line saying what it detects.
#[derive(Clone, Copy, Debug, PartialEq, Eq)]
pub struct LintCompletion {
    pub label: &'static str,
    pub description: &'static str,
}

/// Whether `label` is among `names`.
pub open spec fn listed(names: Seq<String>, label: Seq<char>) -> bool {
    exists|k: int| 0 <= k < names.len() && #[trigger] names[k]@ == label
}

/// The lints of `lints`, in order, whose label is not among `existing`.
pub open spec fn lints_to_offer(existing: Seq<String>, lints: Seq<LintCompletion>) -> Seq<LintCompletion>
    decreases lints.len(),
{
    if lints.len() == 0 {
        Seq::empty()
    } else {
        let init = lints_to_offer(existing, lints.drop_last());
        if listed(existing, lints.last().label@) {
            init
        } else {
            init.push(lints.last())
        }
    }
}

fn is_listed(names: &Vec<String>, label: &str) -> (r: bool)
    ensures
        r == listed(names@, label@),
{
    let wanted = label.to_owned();
    let mut k: usize = 0;
    while k < names.len()
        invariant
            k <= names.len(),
            wanted@ == label@,
            forall|j: int| 0 <= j < k ==> #[trigger] names@[j]@ != label@,
        decreases names.len() - k,
    {
        if names[k] == wanted {
            return true;
        }
        k += 1;
    }
    false
}

/// The completions for a lint attribute whose input already lists
/// `existing_lints`: each lint of `lints_completions` not listed yet, in
/// order.
pub fn complete_lint(existing_lints: &Vec<String>, lints_completions: &Vec<LintCompletion>) -> (r: Vec<LintCompletion>)
    ensures
        r@ == lints_to_offer(existing_lints@, lints_completions@),
{
    let mut acc: Vec<LintCompletion> = Vec::new();
    let mut i: usize = 0;
    while i < lints_completions.len()
        invariant
            i <= lints_completions.len(),
            acc@ == lints_to_offer(existing_lints@, lints_completions@.subrange(0, i as int)),
        decreases lints_completions.len() - i,
    {
        let lint = lints_completions[i];
        proof {
            let s = lints_completions@.subrange(0, i + 1);
            assert(s.drop_last() =~= lints_completions@.subrange(0, i as int));
            assert(s.last() == lint);
        }
        if !is_listed(existing_lints, lint.label) {
            acc.push(lint);
        }
        i += 1;
    }
    assert(lints_completions@.subrange(0, lints_completions.len() as int) =~= lints_completions@);
    acc
}

/// The lints that rustc knows by default.
pub fn default_lint_completions() -> (r: Vec<LintCompletion>)
    ensures
        r@.len() == 115,
{
    vec![
        LintCompletion { label: "absolute_paths_not_starting_with_crate", description: "fully qualified paths that start with a module name instead of `crate`, `self`, or an extern crate name" },
        LintCompletion { label: "anonymous_parameters", description: "detects anonymous parameters" },
        LintCompletion { label: "box_pointers", description: "use of owned (Box type) heap memory" },
        LintCompletion { label: "deprecated_in_future", description: "detects use of items that will be deprecated in a future version" },
        LintCompletion { label: "elided_lifetimes_in_paths", description: "hidden lifetime parameters in types are deprecated" },
        LintCompletion { label: "explicit_outlives_requirements", description: "outlives requirements can be inferred" },
        LintCompletion { label: "indirect_structural_match", description: "pattern with const indirectly referencing non-structural-match type" },
        LintCompletion { label: "keyword_idents", description: "detects edition keywords being used as an identifier" },
        LintCompletion { label: "macro_use_extern_crate", description: "the `#[macro_use]` attribute is now deprecated in favor of using macros via the module system" },
        LintCompletion { label: "meta_variable_misuse", description: "possible meta-variable misuse at macro definition" },
        LintCompletion { label: "missing_copy_implementations", description: "detects potentially-forgotten implementations of `Copy`" },
        LintCompletion { label: "missing_crate_level_docs", description: "detects crates with no crate-level documentation" },
        LintCompletion { label: "missing_debug_implementations", description: "detects missing implementations of Debug" },
        LintCompletion { label: "missing_docs", description: "detects missing documentation for public members" },
        LintCompletion { label: "missing_doc_code_examples", description: "detects publicly-exported items without code samples in their documentation" },
        LintCompletion { label: "non_ascii_idents", description: "detects non-ASCII identifiers" },
        LintCompletion { label: "private_doc_tests", description: "detects code samples in docs of private items not documented by rustdoc" },
        LintCompletion { label: "single_use_lifetimes", description: "detects lifetime parameters that are only used once" },
        LintCompletion { label: "trivial_casts", description: "detects trivial casts which could be removed" },
        LintCompletion { label: "trivial_numeric_casts", description: "detects trivial casts of numeric types which could be removed" },
        LintCompletion { label: "unaligned_references", description: "detects unaligned references to fields of packed structs" },
        LintCompletion { label: "unreachable_pub", description: "`pub` items not reachable from crate root" },
        LintCompletion { label: "unsafe_code", description: "usage of `unsafe` code" },
        LintCompletion { label: "unsafe_op_in_unsafe_fn", description: "unsafe operations in unsafe functions without an explicit unsafe block are deprecated" },
        LintCompletion { label: "unstable_features", description: "enabling unstable features (deprecated. do not use)" },
        LintCompletion { label: "unused_crate_dependencies", description: "crate dependencies that are never used" },
        LintCompletion { label: "unused_extern_crates", description: "extern crates that are never used" },
        LintCompletion { label: "unused_import_braces", description: "unnecessary braces around an imported item" },
        LintCompletion { label: "unused_lifetimes", description: "detects lifetime parameters that are never used" },
        LintCompletion { label: "unused_qualifications", description: "detects unnecessarily qualified names" },
        LintCompletion { label: "unused_results", description: "unused result of an expression in a statement" },
        LintCompletion { label: "variant_size_differences", description: "detects enums with widely varying variant sizes" },
        LintCompletion { label: "array_into_iter", description: "detects calling `into_iter` on arrays" },
        LintCompletion { label: "asm_sub_register", description: "using only a subset of a register for inline asm inputs" },
        LintCompletion { label: "bare_trait_objects", description: "suggest using `dyn Trait` for trait objects" },
        LintCompletion { label: "bindings_with_variant_name", description: "detects pattern bindings with the same name as one of the matched variants" },
        LintCompletion { label: "cenum_impl_drop_cast", description: "a C-like enum implementing Drop is cast" },
        LintCompletion { label: "clashing_extern_declarations", description: "detects when an extern fn has been declared with the same name but different types" },
        LintCompletion { label: "coherence_leak_check", description: "distinct impls distinguished only by the leak-check code" },
        LintCompletion { label: "confusable_idents", description: "detects visually confusable pairs between identifiers" },
        LintCompletion { label: "dead_code", description: "detect unused, unexported items" },
        LintCompletion { label: "deprecated", description: "detects use of deprecated items" },
        LintCompletion { label: "ellipsis_inclusive_range_patterns", description: "`...` range patterns are deprecated" },
        LintCompletion { label: "exported_private_dependencies", description: "public interface leaks type from a private dependency" },
        LintCompletion { label: "illegal_floating_point_literal_pattern", description: "floating-point literals cannot be used in patterns" },
        LintCompletion { label: "improper_ctypes", description: "proper use of libc types in foreign modules" },
        LintCompletion { label: "improper_ctypes_definitions", description: "proper use of libc types in foreign item definitions" },
        LintCompletion { label: "incomplete_features", description: "incomplete features that may function improperly in some or all cases" },
        LintCompletion { label: "inline_no_sanitize", description: "detects incompatible use of `#[inline(always)]` and `#[no_sanitize(...)]`" },
        LintCompletion { label: "intra_doc_link_resolution_failure", description: "failures in resolving intra-doc link targets" },
        LintCompletion { label: "invalid_codeblock_attributes", description: "codeblock attribute looks a lot like a known one" },
        LintCompletion { label: "invalid_value", description: "an invalid value is being created (such as a NULL reference)" },
        LintCompletion { label: "irrefutable_let_patterns", description: "detects irrefutable patterns in if-let and while-let statements" },
        LintCompletion { label: "late_bound_lifetime_arguments", description: "detects generic lifetime arguments in path segments with late bound lifetime parameters" },
        LintCompletion { label: "mixed_script_confusables", description: "detects Unicode scripts whose mixed script confusables codepoints are solely used" },
        LintCompletion { label: "mutable_borrow_reservation_conflict", description: "reservation of a two-phased borrow conflicts with other shared borrows" },
        LintCompletion { label: "non_camel_case_types", description: "types, variants, traits and type parameters should have camel case names" },
        LintCompletion { label: "non_shorthand_field_patterns", description: "using `Struct { x: x }` instead of `Struct { x }` in a pattern" },
        LintCompletion { label: "non_snake_case", description: "variables, methods, functions, lifetime parameters and modules should have snake case names" },
        LintCompletion { label: "non_upper_case_globals", description: "static constants should have uppercase identifiers" },
        LintCompletion { label: "no_mangle_generic_items", description: "generic items must be mangled" },
        LintCompletion { label: "overlapping_patterns", description: "detects overlapping patterns" },
        LintCompletion { label: "path_statements", description: "path statements with no effect" },
        LintCompletion { label: "private_in_public", description: "detect private items in public interfaces not caught by the old implementation" },
        LintCompletion { label: "proc_macro_derive_resolution_fallback", description: "detects proc macro derives using inaccessible names from parent modules" },
        LintCompletion { label: "redundant_semicolons", description: "detects unnecessary trailing semicolons" },
        LintCompletion { label: "renamed_and_removed_lints", description: "lints that have been renamed or removed" },
        LintCompletion { label: "safe_packed_borrows", description: "safe borrows of fields of packed structs were erroneously allowed" },
        LintCompletion { label: "stable_features", description: "stable features found in `#[feature]` directive" },
        LintCompletion { label: "trivial_bounds", description: "these bounds don't depend on an type parameters" },
        LintCompletion { label: "type_alias_bounds", description: "bounds in type aliases are not enforced" },
        LintCompletion { label: "tyvar_behind_raw_pointer", description: "raw pointer to an inference variable" },
        LintCompletion { label: "uncommon_codepoints", description: "detects uncommon Unicode codepoints in identifiers" },
        LintCompletion { label: "unconditional_recursion", description: "functions that cannot return without calling themselves" },
        LintCompletion { label: "unknown_lints", description: "unrecognized lint attribute" },
        LintCompletion { label: "unnameable_test_items", description: "detects an item that cannot be named being marked as `#[test_case]`" },
        LintCompletion { label: "unreachable_code", description: "detects unreachable code paths" },
        LintCompletion { label: "unreachable_patterns", description: "detects unreachable patterns" },
        LintCompletion { label: "unstable_name_collisions", description: "detects name collision with an existing but unstable method" },
        LintCompletion { label: "unused_allocation", description: "detects unnecessary allocations that can be eliminated" },
        LintCompletion { label: "unused_assignments", description: "detect assignments that will never be read" },
        LintCompletion { label: "unused_attributes", description: "detects attributes that were not used by the compiler" },
        LintCompletion { label: "unused_braces", description: "unnecessary braces around an expression" },
        LintCompletion { label: "unused_comparisons", description: "comparisons made useless by limits of the types involved" },
        LintCompletion { label: "unused_doc_comments", description: "detects doc comments that aren't used by rustdoc" },
        LintCompletion { label: "unused_features", description: "unused features found in crate-level `#[feature]` directives" },
        LintCompletion { label: "unused_imports", description: "imports that are never used" },
        LintCompletion { label: "unused_labels", description: "detects labels that are never used" },
        LintCompletion { label: "unused_macros", description: "detects macros that were not used" },
        LintCompletion { label: "unused_must_use", description: "unused result of a type flagged as `#[must_use]`" },
        LintCompletion { label: "unused_mut", description: "detect mut variables which don't need to be mutable" },
        LintCompletion { label: "unused_parens", description: "`if`, `match`, `while` and `return` do not need parentheses" },
        LintCompletion { label: "unused_unsafe", description: "unnecessary use of an `unsafe` block" },
        LintCompletion { label: "unused_variables", description: "detect variables which are not used in any way" },
        LintCompletion { label: "warnings", description: "mass-change the level for lints which produce warnings" },
        LintCompletion { label: "where_clauses_object_safety", description: "checks the object safety of where clauses" },
        LintCompletion { label: "while_true", description: "suggest using `loop { }` instead of `while true { }`" },
        LintCompletion { label: "ambiguous_associated_items", description: "ambiguous associated items" },
        LintCompletion { label: "arithmetic_overflow", description: "arithmetic operation overflows" },
        LintCompletion { label: "conflicting_repr_hints", description: "conflicts between `#[repr(..)]` hints that were previously accepted and used in practice" },
        LintCompletion { label: "const_err", description: "constant evaluation detected erroneous expression" },
        LintCompletion { label: "ill_formed_attribute_input", description: "ill-formed attribute inputs that were previously accepted and used in practice" },
        LintCompletion { label: "incomplete_include", description: "trailing content in included file" },
        LintCompletion { label: "invalid_type_param_default", description: "type parameter default erroneously allowed in invalid location" },
        LintCompletion { label: "macro_expanded_macro_exports_accessed_by_absolute_paths", description: "macro-expanded `macro_export` macros from the current crate cannot be referred to by absolute paths" },
        LintCompletion { label: "missing_fragment_specifier", description: "detects missing fragment specifiers in unused `macro_rules!` patterns" },
        LintCompletion { label: "mutable_transmutes", description: "mutating transmuted &mut T from &T may cause undefined behavior" },
        LintCompletion { label: "no_mangle_const_items", description: "const items will not have their symbols exported" },
        LintCompletion { label: "order_dependent_trait_objects", description: "trait-object types were treated as different depending on marker-trait order" },
        LintCompletion { label: "overflowing_literals", description: "literal out of range for its type" },
        LintCompletion { label: "patterns_in_fns_without_body", description: "patterns in functions without body were erroneously allowed" },
        LintCompletion { label: "pub_use_of_private_extern_crate", description: "detect public re-exports of private extern crates" },
        LintCompletion { label: "soft_unstable", description: "a feature gate that doesn't break dependent crates" },
        LintCompletion { label: "unconditional_panic", description: "operation will cause a panic at runtime" },
        LintCompletion { label: "unknown_crate_types", description: "unknown crate type found in `#[crate_type]` directive" },
    ]
}

} // verus!
