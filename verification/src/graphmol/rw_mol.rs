//! The editable-molecule handle and its lifecycle protocol.
//!
//! An `RWMol` owns one reference to a native molecule object.  The handle is
//! minted only by the two parsing constructors or by a deep clone, so a handle
//! always points at a live, validly constructed object.  Rendering borrows a
//! temporary immutable-typed alias of the same object (borrow-cast: the count
//! rises by one for the duration of the call and is released exactly once),
//! while `to_ro_mol` changes the type of the one owning view permanently
//! (move-cast: the count does not change, and the editable binding is gone).
//! Both directions are proved against the heap model in `crate::native`.

use vstd::prelude::*;
use vstd::string::StringExecFns;

use crate::graphmol::ro_mol::ROMol;
use crate::native::NativeHeap;

verus! {

/// An owning, editable-typed view of native object `id`.
#[derive(Debug)]
pub struct RWMol {
    pub id: usize,
}

/// Failure of the pattern-text constructor.  The two kinds are distinct and
/// reportable: the engine either returned a null object without raising, or
/// raised an exception whose rendered text is carried along.
#[derive(Debug, PartialEq)]
pub enum RWMolError {
    UnknownConversionError,
    ConversionException(String),
}

impl RWMolError {
    /// The human-readable description of this failure kind.
    pub open spec fn message_text(self) -> Seq<char> {
        match self {
            RWMolError::UnknownConversionError => "Could not convert smarts to RWMol (nullptr)"@,
            RWMolError::ConversionException(_) => "could not convert smarts to RWMol (exception)"@,
        }
    }

    /// Render the failure kind as text.
    pub fn message(&self) -> (r: String)
        ensures
            r@ == self.message_text(),
    {
        match self {
            RWMolError::UnknownConversionError => {
                "Could not convert smarts to RWMol (nullptr)".to_owned()
            },
            RWMolError::ConversionException(_) => {
                "could not convert smarts to RWMol (exception)".to_owned()
            },
        }
    }
}

/// What the engine's pattern parser reported back across the boundary: a
/// non-null object (identified, as everywhere in the model, by the notation
/// it renders to), a null object, or an exception with its rendered text.
pub enum SmartsParse {
    Object(String),
    Null,
    Raised(String),
}

impl RWMol {
    /// The handle points at a live object of `h`.
    pub open spec fn wf(self, h: NativeHeap) -> bool {
        h.wf() && h.live(self.id as int)
    }

    /// The line notation this handle's object renders to in heap `h`.
    pub open spec fn notation(self, h: NativeHeap) -> Seq<char> {
        h.notation_at(self.id as int)
    }

    /// Construct from block-format text.  `parsed` is what the engine's block
    /// parser returned: a new object, or null.  Success is owed exactly when
    /// the engine produced an object; the failure path carries no detail and
    /// leaves the heap untouched — construction never partially succeeds.
    pub fn from_mol_block(h: &mut NativeHeap, parsed: Option<String>) -> (r: Option<RWMol>)
        requires
            old(h).wf(),
        ensures
            final(h).wf(),
            r is Some <==> parsed is Some,
            parsed is None ==> NativeHeap::same_state(*old(h), *final(h)),
            parsed matches Some(n) ==> (r matches Some(m) && NativeHeap::allocates(
                *old(h),
                *final(h),
                m.id as int,
                n@,
            ) && m.wf(*final(h))),
    {
        match parsed {
            Option::None => Option::None,
            Option::Some(notation) => {
                let id = h.allocate(notation);
                Option::Some(RWMol { id })
            },
        }
    }

    /// Construct from pattern text.  `parse` is what the engine's pattern
    /// parser reported.  A null object yields the unknown-conversion kind; an
    /// exception yields the exception kind carrying the engine's text,
    /// verbatim; either failure leaves the heap untouched.
    pub fn from_smarts(h: &mut NativeHeap, parse: SmartsParse) -> (r: Result<RWMol, RWMolError>)
        requires
            old(h).wf(),
        ensures
            final(h).wf(),
            r is Ok <==> parse is Object,
            parse matches SmartsParse::Object(n) ==> (r matches Ok(m) && NativeHeap::allocates(
                *old(h),
                *final(h),
                m.id as int,
                n@,
            ) && m.wf(*final(h))),
            parse is Null ==> (r matches Err(e) && e == RWMolError::UnknownConversionError
                && NativeHeap::same_state(*old(h), *final(h))),
            parse matches SmartsParse::Raised(msg) ==> (r matches Err(e)
                && (e matches RWMolError::ConversionException(t) && t@ == msg@)
                && NativeHeap::same_state(*old(h), *final(h))),
    {
        match parse {
            SmartsParse::Object(notation) => {
                let id = h.allocate(notation);
                Result::Ok(RWMol { id })
            },
            SmartsParse::Null => Result::Err(RWMolError::UnknownConversionError),
            SmartsParse::Raised(msg) => Result::Err(RWMolError::ConversionException(msg)),
        }
    }

    /// Borrow-cast: mint a temporary immutable-typed alias of the same
    /// object.  Both views are live afterwards and the reference count rises
    /// by exactly one — the alias must later be released exactly once.
    pub fn alias_as_ro(&self, h: &mut NativeHeap) -> (r: ROMol)
        requires
            self.wf(*old(h)),
            old(h).refs_at(self.id as int) < u64::MAX,
        ensures
            final(h).wf(),
            r.id == self.id,
            NativeHeap::retains(*old(h), *final(h), self.id as int),
            r.wf(*final(h)),
            self.wf(*final(h)),
    {
        h.retain(self.id);
        ROMol { id: self.id }
    }

    /// Render the molecule to its canonical line notation, through the
    /// rendering routine of the immutable type: a temporary immutable-typed
    /// alias is taken, read, and released exactly once.  The call is a pure
    /// read — the heap is restored to exactly its prior state, so the handle
    /// stays independently usable and repeated calls render the same text.
    pub fn as_smiles(&self, h: &mut NativeHeap) -> (r: String)
        requires
            self.wf(*old(h)),
            old(h).refs_at(self.id as int) < u64::MAX,
        ensures
            final(h).wf(),
            NativeHeap::same_state(*old(h), *final(h)),
            r@ == self.notation(*old(h)),
    {
        let ro = self.alias_as_ro(h);
        let ghost mid = *h;
        let s = ro.as_smiles(h);
        ro.release(h);
        proof {
            crate::laws::lemma_alias_balanced(*old(h), mid, *h, self.id as int);
        }
        s
    }

    /// Move-cast: consume the editable handle and hand its one ownership
    /// share to an immutable-typed view of the same object.  No native call
    /// is made and the heap is not even touched: there is exactly one owning
    /// view before and after, typed differently.
    pub fn to_ro_mol(self) -> (r: ROMol)
        ensures
            r.id == self.id,
    {
        ROMol { id: self.id }
    }

    /// Deep clone: ask the engine to copy-construct a fresh object with the
    /// same notation.  The clone is a distinct object with its own count of
    /// one, so the two handles are independent; the source is untouched.
    pub fn deep_clone(&self, h: &mut NativeHeap) -> (r: RWMol)
        requires
            self.wf(*old(h)),
        ensures
            final(h).wf(),
            NativeHeap::allocates(
                *old(h),
                *final(h),
                r.id as int,
                old(h).notation_at(self.id as int),
            ),
            r.id != self.id,
            r.wf(*final(h)),
            self.wf(*final(h)),
            self.notation(*final(h)) == self.notation(*old(h)),
    {
        let notation = h.read_notation(self.id);
        let id = h.allocate(notation);
        proof {
            assert(h.refs_at(self.id as int) == old(h).refs_at(self.id as int));
        }
        RWMol { id }
    }

    /// Textual debug rendering: the handle's type name wrapped around its
    /// current line notation, read through the same pure rendering path.
    pub fn debug_text(&self, h: &mut NativeHeap) -> (r: String)
        requires
            self.wf(*old(h)),
            old(h).refs_at(self.id as int) < u64::MAX,
        ensures
            final(h).wf(),
            NativeHeap::same_state(*old(h), *final(h)),
            r@ == "RWMol(\""@ + self.notation(*old(h)) + "\")"@,
    {
        let smiles = self.as_smiles(h);
        let mut out = "RWMol(\"".to_owned();
        out.append(smiles.as_str());
        out.append("\")");
        out
    }

    /// Give up this view's ownership share: the object's reference count
    /// drops by one, freeing the object when this was the last view.
    pub fn release(self, h: &mut NativeHeap)
        requires
            self.wf(*old(h)),
        ensures
            final(h).wf(),
            NativeHeap::releases(*old(h), *final(h), self.id as int),
    {
        h.release_ref(self.id)
    }
}

} // verus!
