//! Safe, verified helpers around the Pdfium native interface: canonical boolean
//! translation, UTF-16LE wide-text marshaling, pixel layout conversion and the
//! portable bitmap buffer replacement, gathered behind the `PdfiumLibraryBindings`
//! contract that every backend implements.

pub mod types;
pub mod error;
pub mod bindings;
pub mod pixels;
pub mod utf16le;
pub mod bitmap;
pub mod color;
pub mod version;

pub use bindings::{PdfiumLibraryBindings, PDFIUM_FALSE, PDFIUM_TRUE};
pub use error::{PdfiumError, PdfiumInternalError};
pub use types::{
    c_int, c_ulong, FPDF_ANNOTATION, FPDF_ANNOT_APPEARANCEMODE, FPDF_ATTACHMENT, FPDF_BITMAP,
    FPDF_BOOKMARK, FPDF_BOOL, FPDF_DOCUMENT, FPDF_DWORD, FPDF_PAGE, FPDF_PAGEOBJECT,
    FPDF_SCHHANDLE, FPDF_TEXTPAGE,
};
pub use version::PdfiumApiVersion;
