//! Wire types of the native interface.
use vstd::prelude::*;

verus! {

/// The C `int` type of the native interface.
#[allow(non_camel_case_types)]
pub type c_int = i32;

/// The C `unsigned long` type of the native interface.
#[allow(non_camel_case_types)]
pub type c_ulong = u64;

/// The native engine's C-style boolean.
#[allow(non_camel_case_types)]
pub type FPDF_BOOL = i32;

/// A 32-bit unsigned word; colors are packed into it as ARGB.
#[allow(non_camel_case_types)]
pub type FPDF_DWORD = u32;

/// Selects the normal, rollover or down appearance of an annotation.
#[allow(non_camel_case_types)]
pub type FPDF_ANNOT_APPEARANCEMODE = c_int;

/// A handle to an open document. The engine owns the document; the value 0 is the
/// null handle that signals failure.
#[allow(non_camel_case_types)]
#[derive(Clone, Copy, Debug, PartialEq, Eq, Structural)]
pub struct FPDF_DOCUMENT(pub usize);

/// A handle to a loaded page; it must be closed before its document.
#[allow(non_camel_case_types)]
#[derive(Clone, Copy, Debug, PartialEq, Eq, Structural)]
pub struct FPDF_PAGE(pub usize);

/// A handle to a bitmap.
#[allow(non_camel_case_types)]
#[derive(Clone, Copy, Debug, PartialEq, Eq, Structural)]
pub struct FPDF_BITMAP(pub usize);

/// A handle to an annotation.
#[allow(non_camel_case_types)]
#[derive(Clone, Copy, Debug, PartialEq, Eq, Structural)]
pub struct FPDF_ANNOTATION(pub usize);

/// A handle to an embedded file attachment.
#[allow(non_camel_case_types)]
#[derive(Clone, Copy, Debug, PartialEq, Eq, Structural)]
pub struct FPDF_ATTACHMENT(pub usize);

/// A handle to a bookmark.
#[allow(non_camel_case_types)]
#[derive(Clone, Copy, Debug, PartialEq, Eq, Structural)]
pub struct FPDF_BOOKMARK(pub usize);

/// A handle to the text of a loaded page.
#[allow(non_camel_case_types)]
#[derive(Clone, Copy, Debug, PartialEq, Eq, Structural)]
pub struct FPDF_TEXTPAGE(pub usize);

/// A handle to a text search context.
#[allow(non_camel_case_types)]
#[derive(Clone, Copy, Debug, PartialEq, Eq, Structural)]
pub struct FPDF_SCHHANDLE(pub usize);

/// A handle to an object on a page.
#[allow(non_camel_case_types)]
#[derive(Clone, Copy, Debug, PartialEq, Eq, Structural)]
pub struct FPDF_PAGEOBJECT(pub usize);

} // verus!
