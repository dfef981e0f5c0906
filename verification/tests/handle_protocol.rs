//! Concrete runs of the handle lifecycle against the engine-heap model.
//! Each test feeds the constructors the report the native parser would hand
//! back across the boundary and checks the protocol's observable behaviour.

use rdkit::NativeHeap;
use rdkit::ROMol;
use rdkit::RWMol;
use rdkit::RWMolError;
use rdkit::SmartsParse;

const BENZENE: &str = "c1ccccc1";

fn live_handle(h: &mut NativeHeap, notation: &str) -> RWMol {
    RWMol::from_mol_block(h, Some(notation.to_owned())).unwrap()
}

#[test]
fn construct_from_block_present() {
    // Scenario: the engine parsed the benzene block text (sanitize on,
    // hydrogen removal on, strict parsing off) and returned an object.
    let mut h = NativeHeap::new();
    let m = RWMol::from_mol_block(&mut h, Some(BENZENE.to_owned()));
    let m = m.expect("a non-null engine object must yield a handle");
    let rendered = m.as_smiles(&mut h);
    assert!(rendered.contains("c1ccccc1"));
}

#[test]
fn construct_from_block_null_is_absent() {
    // Scenario: malformed block text (truncated header, no atom block) makes
    // the engine return null; the result is absent, and nothing leaks into
    // the heap.
    let mut h = NativeHeap::new();
    let slots_before = h.refs.len();
    let m = RWMol::from_mol_block(&mut h, None);
    assert!(m.is_none());
    assert_eq!(h.refs.len(), slots_before);
}

#[test]
fn construct_from_smarts_present() {
    // Scenario: the pattern "[#6]" is accepted and produces an object.
    let mut h = NativeHeap::new();
    let m = RWMol::from_smarts(&mut h, SmartsParse::Object("[#6]".to_owned()));
    assert!(m.is_ok());
}

#[test]
fn smarts_null_is_unknown_conversion() {
    let mut h = NativeHeap::new();
    let e = RWMol::from_smarts(&mut h, SmartsParse::Null).unwrap_err();
    assert_eq!(e, RWMolError::UnknownConversionError);
    assert_eq!(e.message(), "Could not convert smarts to RWMol (nullptr)");
}

#[test]
fn smarts_exception_is_conversion_exception() {
    let mut h = NativeHeap::new();
    let raised = "SMARTS Parse Error: syntax error for input: 'C('";
    let e = RWMol::from_smarts(&mut h, SmartsParse::Raised(raised.to_owned())).unwrap_err();
    match &e {
        RWMolError::ConversionException(text) => {
            assert_eq!(text, raised);
            assert!(!text.is_empty());
        }
        RWMolError::UnknownConversionError => panic!("wrong error kind"),
    }
    assert_eq!(e.message(), "could not convert smarts to RWMol (exception)");
}

#[test]
fn clone_renders_alike_and_is_independent() {
    let mut h = NativeHeap::new();
    let m = live_handle(&mut h, BENZENE);
    let c = m.deep_clone(&mut h);
    assert_ne!(m.id, c.id);
    assert_eq!(m.as_smiles(&mut h), c.as_smiles(&mut h));
    // Releasing the source leaves the clone live and unchanged.
    m.release(&mut h);
    assert_eq!(c.as_smiles(&mut h), BENZENE);
}

#[test]
fn render_is_repeatable_and_side_effect_free() {
    let mut h = NativeHeap::new();
    let m = live_handle(&mut h, BENZENE);
    let refs_before = h.refs.clone();
    let first = m.as_smiles(&mut h);
    let second = m.as_smiles(&mut h);
    let third = m.as_smiles(&mut h);
    assert_eq!(first, second);
    assert_eq!(second, third);
    // The rendering alias was released exactly once: counts are restored.
    assert_eq!(h.refs, refs_before);
    assert_eq!(h.refs[m.id], 1);
}

#[test]
fn conversion_preserves_content() {
    let mut h = NativeHeap::new();
    let m = live_handle(&mut h, BENZENE);
    let before = m.as_smiles(&mut h);
    let refs_before = h.refs.clone();
    let ro: ROMol = m.to_ro_mol();
    // Zero-copy transfer of view: no reference count moved.
    assert_eq!(h.refs, refs_before);
    assert_eq!(ro.as_smiles(&h), before);
}

#[test]
fn borrow_cast_counts_one_alias() {
    let mut h = NativeHeap::new();
    let m = live_handle(&mut h, BENZENE);
    let alias = m.alias_as_ro(&mut h);
    assert_eq!(h.refs[m.id], 2);
    assert_eq!(alias.as_smiles(&h), BENZENE);
    alias.release(&mut h);
    assert_eq!(h.refs[m.id], 1);
    // The editable view is untouched by the alias's life.
    assert_eq!(m.as_smiles(&mut h), BENZENE);
}

#[test]
fn clone_twice_then_convert_original() {
    // Scenario: two clones taken, then the original consumed into the
    // immutable type; both clones stay independently renderable, unchanged.
    let mut h = NativeHeap::new();
    let m = live_handle(&mut h, BENZENE);
    let c1 = m.deep_clone(&mut h);
    let c2 = m.deep_clone(&mut h);
    let ro = m.to_ro_mol();
    assert_eq!(c1.as_smiles(&mut h), BENZENE);
    assert_eq!(c2.as_smiles(&mut h), BENZENE);
    assert_eq!(ro.as_smiles(&h), BENZENE);
    ro.release(&mut h);
    assert_eq!(c1.as_smiles(&mut h), BENZENE);
    assert_eq!(c2.as_smiles(&mut h), BENZENE);
}

#[test]
fn distinct_notations_stay_distinct() {
    let mut h = NativeHeap::new();
    let a = live_handle(&mut h, "CCO");
    let b = live_handle(&mut h, "c1ccncc1");
    assert_eq!(a.as_smiles(&mut h), "CCO");
    assert_eq!(b.as_smiles(&mut h), "c1ccncc1");
}

#[test]
fn debug_text_labels_the_notation() {
    let mut h = NativeHeap::new();
    let m = live_handle(&mut h, BENZENE);
    assert_eq!(m.debug_text(&mut h), "RWMol(\"c1ccccc1\")");
    // The rendering inside the formatting is as pure as a plain render.
    assert_eq!(h.refs[m.id], 1);
}

#[test]
fn release_frees_on_last_owner() {
    let mut h = NativeHeap::new();
    let m = live_handle(&mut h, BENZENE);
    let id = m.id;
    m.release(&mut h);
    assert_eq!(h.refs[id], 0);
}
