//! The reduced handle variant renders and clones through the same verified
//! path as the primary handle type.

use rdkit::NativeHeap;
use rdkit::RWMol;

#[test]
fn minimal_variant_renders_and_clones() {
    let mut h = NativeHeap::new();
    // The minimal handle takes over the single ownership share of a freshly
    // constructed object.
    let id = RWMol::from_mol_block(&mut h, Some("CC(=O)NC".to_owned())).unwrap().id;
    let m = rdkit::rw_mol::RWMol { id };
    assert_eq!(m.as_smile(&mut h), "CC(=O)NC");
    let c = m.deep_clone(&mut h);
    assert_ne!(c.id, m.id);
    assert_eq!(c.as_smile(&mut h), "CC(=O)NC");
    assert_eq!(m.as_smile(&mut h), "CC(=O)NC");
}
