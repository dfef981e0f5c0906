//! Molecule handle types: the editable handle, its failure type, and the
//! immutable handle it can be viewed or converted as.

pub mod ro_mol;
pub mod rw_mol;
