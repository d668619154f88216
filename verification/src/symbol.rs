//! The `Symbol` record produced by one backend callback firing, and its
//! accessors.
//!
//! A record holds plain owned values: the shell that receives the raw
//! callback copies each NUL-terminated backend string into a `Vec<u8>`
//! before anything here sees it, and a null pointer becomes `None`.

use vstd::prelude::*;

verus! {

/// One resolved debug record.
pub enum Symbol {
    /// Flat symbol-table hit: an address and, when the table had one, a
    /// symbol name.
    Syminfo { pc: usize, symname: Option<Vec<u8>> },
    /// Line-table hit: an address, a source file, a line number and, when
    /// the table had one, a function name.
    Pcinfo { pc: usize, filename: Vec<u8>, lineno: u32, function: Option<Vec<u8>> },
}

/// A resolved symbol name: the raw bytes the backend reported.
pub struct SymbolName {
    pub bytes: Vec<u8>,
}

impl SymbolName {
    pub fn new(bytes: Vec<u8>) -> (r: SymbolName)
        ensures
            r.bytes@ == bytes@,
    {
        SymbolName { bytes }
    }

    pub fn as_bytes(&self) -> (r: &Vec<u8>)
        ensures
            r@ == self.bytes@,
    {
        &self.bytes
    }
}

/// A file name as the platform reports it: a plain byte string.
pub enum BytesOrWideString {
    Bytes(Vec<u8>),
}

impl Symbol {
    /// The name bytes of this record: the symbol name of a symbol-table
    /// hit, the function name of a line-table hit; `None` where the
    /// backend reported none.
    pub open spec fn spec_name(self) -> Option<Seq<u8>> {
        match self {
            Symbol::Syminfo { symname, .. } => match symname {
                Some(v) => Some(v@),
                None => None,
            },
            Symbol::Pcinfo { function, .. } => match function {
                Some(v) => Some(v@),
                None => None,
            },
        }
    }

    /// The address of this record; `None` where the backend reported the
    /// null address.
    pub open spec fn spec_addr(self) -> Option<usize> {
        match self {
            Symbol::Syminfo { pc, .. } => if pc == 0 { None } else { Some(pc) },
            Symbol::Pcinfo { pc, .. } => if pc == 0 { None } else { Some(pc) },
        }
    }

    /// The file name bytes of this record: present exactly on a line-table
    /// hit.
    pub open spec fn spec_filename(self) -> Option<Seq<u8>> {
        match self {
            Symbol::Syminfo { .. } => None,
            Symbol::Pcinfo { filename, .. } => Some(filename@),
        }
    }

    /// The line number of this record: present exactly on a line-table hit.
    pub open spec fn spec_lineno(self) -> Option<u32> {
        match self {
            Symbol::Syminfo { .. } => None,
            Symbol::Pcinfo { lineno, .. } => Some(lineno),
        }
    }

    /// The symbol or function name, owned, or `None` where the backend
    /// reported none.
    pub fn name(&self) -> (r: Option<SymbolName>)
        ensures
            r is Some <==> self.spec_name() is Some,
            r matches Some(n) ==> self.spec_name() == Some(n.bytes@),
    {
        let bytes = match self {
            Symbol::Syminfo { symname, .. } => symname,
            Symbol::Pcinfo { function, .. } => function,
        };
        match bytes {
            None => None,
            Some(v) => Some(SymbolName::new(copy_bytes(v))),
        }
    }

    /// The address this record resolves, or `None` for the null address.
    pub fn addr(&self) -> (r: Option<usize>)
        ensures
            r == self.spec_addr(),
    {
        let pc = match self {
            Symbol::Syminfo { pc, .. } => *pc,
            Symbol::Pcinfo { pc, .. } => *pc,
        };
        if pc == 0 {
            None
        } else {
            Some(pc)
        }
    }

    /// The file name bytes of a line-table hit.
    fn filename_bytes(&self) -> (r: Option<&Vec<u8>>)
        ensures
            r is Some <==> self.spec_filename() is Some,
            r matches Some(v) ==> self.spec_filename() == Some(v@),
    {
        match self {
            Symbol::Syminfo { .. } => None,
            Symbol::Pcinfo { filename, .. } => Some(filename),
        }
    }

    /// The file name of a line-table hit, owned, as raw platform bytes.
    pub fn filename_raw(&self) -> (r: Option<BytesOrWideString>)
        ensures
            r is Some <==> self.spec_filename() is Some,
            r matches Some(BytesOrWideString::Bytes(v)) ==> self.spec_filename() == Some(v@),
    {
        match self.filename_bytes() {
            None => None,
            Some(v) => Some(BytesOrWideString::Bytes(copy_bytes(v))),
        }
    }

    /// The file name of a line-table hit, borrowed.  The bytes are a
    /// platform path; turning them into a path type is the shell's work.
    pub fn filename(&self) -> (r: Option<&Vec<u8>>)
        ensures
            r is Some <==> self.spec_filename() is Some,
            r matches Some(v) ==> self.spec_filename() == Some(v@),
    {
        self.filename_bytes()
    }

    /// The line number of a line-table hit.
    pub fn lineno(&self) -> (r: Option<u32>)
        ensures
            r == self.spec_lineno(),
    {
        match self {
            Symbol::Syminfo { .. } => None,
            Symbol::Pcinfo { lineno, .. } => Some(*lineno),
        }
    }
}

/// An owned copy of a byte vector with the same contents.
fn copy_bytes(v: &Vec<u8>) -> (r: Vec<u8>)
    ensures
        r@ == v@,
{
    let mut r: Vec<u8> = Vec::new();
    let mut i: usize = 0;
    while i < v.len()
        invariant
            i <= v@.len(),
            r@ == v@.subrange(0, i as int),
        decreases v@.len() - i,
    {
        r.push(v[i]);
        i = i + 1;
    }
    proof {
        assert(r@ =~= v@);
    }
    r
}

} // verus!
