//! The binding contract that every backend of the native engine implements.
//!
//! Backends supply the native entry points; the contract derives from them the
//! boolean, text and pixel helpers, whose behaviour is proved here once for every
//! backend.
use vstd::prelude::*;

use crate::color::{alpha_of, argb_word, blue_of, green_of, pack_argb, red_of};
use crate::error::{PdfiumError, PdfiumInternalError};
use crate::pixels::{
    bgra_to_rgba, expand_swapped, rgba_to_bgra, swap_red_blue, unaligned_bgr_to_rgba,
    unaligned_rgb_to_bgra, FULL_OPACITY,
};
use crate::types::{
    c_int, c_ulong, FPDF_ANNOTATION, FPDF_ANNOT_APPEARANCEMODE, FPDF_ATTACHMENT, FPDF_BITMAP,
    FPDF_BOOKMARK, FPDF_BOOL, FPDF_DOCUMENT, FPDF_DWORD, FPDF_PAGE, FPDF_PAGEOBJECT,
    FPDF_SCHHANDLE, FPDF_TEXTPAGE,
};
use crate::utf16le::{
    get_pdfium_utf16le_bytes_from_str, get_string_from_pdfium_utf16le_bytes, is_wide_text,
    wide_text, wide_text_decode,
};
use crate::version::PdfiumApiVersion;

verus! {

/// The canonical native value for `true`.
pub const PDFIUM_TRUE: FPDF_BOOL = 1;

/// The canonical native value for `false`.
pub const PDFIUM_FALSE: FPDF_BOOL = 0;

/// Whether a native boolean reads as `true`: anything but the canonical `false`.
pub open spec fn pdfium_truth(value: FPDF_BOOL) -> bool {
    value != PDFIUM_FALSE
}

/// The canonical native boolean for `value`.
pub open spec fn pdfium_bool(value: bool) -> FPDF_BOOL {
    if value {
        PDFIUM_TRUE
    } else {
        PDFIUM_FALSE
    }
}

/// Reading back the canonical native boolean for a `bool` gives that `bool`.
pub proof fn lemma_bool_round_trip(value: bool)
    ensures
        pdfium_truth(pdfium_bool(value)) == value,
{
}

/// Platform-independent bindings to the native engine.
///
/// The engine takes text in three forms: C strings and UTF-8 byte arrays, which
/// these bindings take as `&str`, and wide-text buffers (UTF-16LE, zero terminated),
/// which they take as bytes. Every entry point that takes a wide-text buffer has a
/// `_str` helper that takes `&str` and encodes it before the call.
pub trait PdfiumLibraryBindings {
    /// Returns the canonical C-style boolean integer value 1, indicating `true`.
    #[allow(non_snake_case)]
    fn TRUE(&self) -> (r: FPDF_BOOL)
        ensures
            r == PDFIUM_TRUE,
    {
        PDFIUM_TRUE
    }

    /// Returns the canonical C-style boolean integer value 0, indicating `false`.
    #[allow(non_snake_case)]
    fn FALSE(&self) -> (r: FPDF_BOOL)
        ensures
            r == PDFIUM_FALSE,
    {
        PDFIUM_FALSE
    }

    /// Converts from a C-style boolean integer to a Rust `bool`: the canonical `false`
    /// reads as `false`, every other value as `true`.
    fn is_true(&self, bool: FPDF_BOOL) -> (r: bool)
        ensures
            r == pdfium_truth(bool),
    {
        bool != self.FALSE()
    }

    /// Converts the given Rust `bool` into its canonical native boolean.
    fn bool_to_pdfium(&self, bool: bool) -> (r: FPDF_BOOL)
        ensures
            r == pdfium_bool(bool),
            pdfium_truth(r) == bool,
    {
        if bool {
            self.TRUE()
        } else {
            self.FALSE()
        }
    }

    /// Converts from a C-style boolean integer to a `Result`: the canonical `false`
    /// gives an unknown internal error, every other value `Ok(())`.
    fn to_result(&self, bool: FPDF_BOOL) -> (r: Result<(), PdfiumError>)
        ensures
            r is Err <==> bool == PDFIUM_FALSE,
            r is Err ==> r == Err::<(), PdfiumError>(
                PdfiumError::PdfiumLibraryInternalError(PdfiumInternalError::Unknown),
            ),
    {
        if self.is_true(bool) {
            Ok(())
        } else {
            Err(PdfiumError::PdfiumLibraryInternalError(PdfiumInternalError::Unknown))
        }
    }

    /// Converts the given text into a wide-text buffer: UTF-16LE code units followed
    /// by a two-byte zero terminator.
    fn get_pdfium_utf16le_bytes_from_str(&self, str: &str) -> (r: Vec<u8>)
        ensures
            r@ == wide_text(str@),
            is_wide_text(r@),
    {
        get_pdfium_utf16le_bytes_from_str(str)
    }

    /// Converts the bytes in the given wide-text buffer into a `String`, reading up to
    /// the terminator or the end. Gives `None` for an odd length or an unpaired
    /// surrogate.
    fn get_string_from_pdfium_utf16le_bytes(&self, buffer: Vec<u8>) -> (r: Option<String>)
        ensures
            wide_text_decode(buffer@) is Some <==> r is Some,
            r is Some ==> r->0@ == wide_text_decode(buffer@)->0,
    {
        get_string_from_pdfium_utf16le_bytes(buffer)
    }

    /// Converts three-channel BGR pixel data into four-channel RGBA pixel data. A new
    /// alpha channel is created with full opacity.
    fn bgr_to_rgba(&self, bgr: &[u8]) -> (r: Vec<u8>)
        ensures
            r@ == expand_swapped(bgr@),
            bgr@.len() % 3 == 0 ==> 3 * r@.len() == 4 * bgr@.len(),
            forall|i: int| 0 <= i < r@.len() && i % 4 == 3 ==> r@[i] == FULL_OPACITY,
    {
        unaligned_bgr_to_rgba(bgr)
    }

    /// Converts four-channel BGRA pixel data into four-channel RGBA pixel data.
    fn bgra_to_rgba(&self, bgra: &[u8]) -> (r: Vec<u8>)
        ensures
            r@ == swap_red_blue(bgra@),
    {
        bgra_to_rgba(bgra)
    }

    /// Converts three-channel RGB pixel data into four-channel BGRA pixel data. A new
    /// alpha channel is created with full opacity.
    fn rgb_to_bgra(&self, rgb: &[u8]) -> (r: Vec<u8>)
        ensures
            r@ == expand_swapped(rgb@),
            rgb@.len() % 3 == 0 ==> 3 * r@.len() == 4 * rgb@.len(),
            forall|i: int| 0 <= i < r@.len() && i % 4 == 3 ==> r@[i] == FULL_OPACITY,
    {
        unaligned_rgb_to_bgra(rgb)
    }

    /// Converts four-channel RGBA pixel data into four-channel BGRA pixel data.
    fn rgba_to_bgra(&self, rgba: &[u8]) -> (r: Vec<u8>)
        ensures
            r@ == swap_red_blue(rgba@),
    {
        rgba_to_bgra(rgba)
    }

    /// Returns the API version of the native interface in use.
    fn version(&self) -> (r: PdfiumApiVersion)
        ensures
            r == PdfiumApiVersion::V6666,
    {
        PdfiumApiVersion::current()
    }

    /// Initializes the engine and its global resources. Must be called before any
    /// other entry point.
    #[allow(non_snake_case)]
    fn FPDF_InitLibrary(&self);

    /// Releases the engine's global resources. No other entry point may be called
    /// afterwards.
    #[allow(non_snake_case)]
    fn FPDF_DestroyLibrary(&self);

    /// Returns the code of the last error the engine reported.
    #[allow(non_snake_case)]
    fn FPDF_GetLastError(&self) -> c_ulong;

    /// Packs alpha, red, green and blue channels into one ARGB word.
    #[allow(non_snake_case)]
    fn FPDF_ARGB(&self, a: u8, r: u8, g: u8, b: u8) -> (w: FPDF_DWORD)
        ensures
            w as int == argb_word(a, r, g, b),
    {
        pack_argb(a, r, g, b)
    }

    /// The blue channel of an ARGB word.
    #[allow(non_snake_case)]
    fn FPDF_GetBValue(&self, argb: FPDF_DWORD) -> (c: u8)
        ensures
            c as int == argb % 0x100,
    {
        blue_of(argb)
    }

    /// The green channel of an ARGB word.
    #[allow(non_snake_case)]
    fn FPDF_GetGValue(&self, argb: FPDF_DWORD) -> (c: u8)
        ensures
            c as int == (argb / 0x100) % 0x100,
    {
        green_of(argb)
    }

    /// The red channel of an ARGB word.
    #[allow(non_snake_case)]
    fn FPDF_GetRValue(&self, argb: FPDF_DWORD) -> (c: u8)
        ensures
            c as int == (argb / 0x10000) % 0x100,
    {
        red_of(argb)
    }

    /// The alpha channel of an ARGB word.
    #[allow(non_snake_case)]
    fn FPDF_GetAValue(&self, argb: FPDF_DWORD) -> (c: u8)
        ensures
            c as int == argb / 0x1000000,
    {
        alpha_of(argb)
    }

    /// Opens a document held in memory. Calls are forwarded to
    /// [PdfiumLibraryBindings::FPDF_LoadMemDocument64].
    #[allow(non_snake_case)]
    fn FPDF_LoadMemDocument(&self, bytes: &[u8], password: Option<&str>) -> FPDF_DOCUMENT {
        self.FPDF_LoadMemDocument64(bytes, password)
    }

    /// Opens a document held in memory; returns the null handle on failure.
    #[allow(non_snake_case)]
    fn FPDF_LoadMemDocument64(&self, data_buf: &[u8], password: Option<&str>) -> FPDF_DOCUMENT;

    /// Closes a document. Every page loaded from it must be closed first.
    #[allow(non_snake_case)]
    fn FPDF_CloseDocument(&self, document: FPDF_DOCUMENT);

    /// The number of pages in a document.
    #[allow(non_snake_case)]
    fn FPDF_GetPageCount(&self, document: FPDF_DOCUMENT) -> c_int;

    /// Loads the page at a zero-based index; returns the null handle on failure.
    #[allow(non_snake_case)]
    fn FPDF_LoadPage(&self, document: FPDF_DOCUMENT, page_index: c_int) -> FPDF_PAGE;

    /// Closes a loaded page.
    #[allow(non_snake_case)]
    fn FPDF_ClosePage(&self, page: FPDF_PAGE);

    /// Imports the pages at the given zero-based indices of `src_doc` into `dest_doc`,
    /// the first of them at `index`. `length` is the number of indices. Returns the
    /// canonical `false` if any index is invalid.
    #[allow(non_snake_case)]
    fn FPDF_ImportPagesByIndex(
        &self,
        dest_doc: FPDF_DOCUMENT,
        src_doc: FPDF_DOCUMENT,
        page_indices: &[c_int],
        length: c_ulong,
        index: c_int,
    ) -> FPDF_BOOL
        requires
            length as int == page_indices@.len(),
    ;

    /// Imports the pages at the given zero-based indices of `src_doc` into `dest_doc`,
    /// the first of them at `index`, passing the indices and their count to
    /// [PdfiumLibraryBindings::FPDF_ImportPagesByIndex].
    #[allow(non_snake_case)]
    fn FPDF_ImportPagesByIndex_vec(
        &self,
        dest_doc: FPDF_DOCUMENT,
        src_doc: FPDF_DOCUMENT,
        page_indices: Vec<c_int>,
        index: c_int,
    ) -> FPDF_BOOL {
        let length: usize = page_indices.len();
        self.FPDF_ImportPagesByIndex(
            dest_doc,
            src_doc,
            page_indices.as_slice(),
            length as c_ulong,
            index,
        )
    }

    /// The width of a bitmap in pixels.
    #[allow(non_snake_case)]
    fn FPDFBitmap_GetWidth(&self, bitmap: FPDF_BITMAP) -> c_int;

    /// The height of a bitmap in pixels.
    #[allow(non_snake_case)]
    fn FPDFBitmap_GetHeight(&self, bitmap: FPDF_BITMAP) -> c_int;

    /// The number of bytes in one row of a bitmap's buffer; it may exceed the width
    /// times the bytes per pixel.
    #[allow(non_snake_case)]
    fn FPDFBitmap_GetStride(&self, bitmap: FPDF_BITMAP) -> c_int;

    /// Replaces all pixel data of the given bitmap with the bytes of `buffer` and
    /// returns `true`, when `buffer` holds exactly stride × height bytes; otherwise
    /// leaves the bitmap unchanged and returns `false`. This is the portable way to
    /// change a bitmap's pixels: backends whose buffer is a copy cannot be written
    /// through. Native backends carry it out with
    /// [crate::bitmap::replace_pixel_buffer].
    #[allow(non_snake_case)]
    fn FPDFBitmap_SetBuffer(&self, bitmap: FPDF_BITMAP, buffer: &[u8]) -> bool;

    /// Sets the string value for `key` in an annotation's dictionary.
    #[allow(non_snake_case)]
    fn FPDFAnnot_SetStringValue(&self, annot: FPDF_ANNOTATION, key: &str, value: &[u8]) -> FPDF_BOOL
        requires
            is_wide_text(value@),
    ;

    /// Sets the string value for `key` in an annotation's dictionary, encoding
    /// `value` as a wide-text buffer for [PdfiumLibraryBindings::FPDFAnnot_SetStringValue].
    #[allow(non_snake_case)]
    fn FPDFAnnot_SetStringValue_str(&self, annot: FPDF_ANNOTATION, key: &str, value: &str) -> FPDF_BOOL {
        let wide = get_pdfium_utf16le_bytes_from_str(value);
        self.FPDFAnnot_SetStringValue(annot, key, wide.as_slice())
    }

    /// Sets the appearance string of an annotation for an appearance mode; `None`
    /// clears it.
    #[allow(non_snake_case)]
    fn FPDFAnnot_SetAP(
        &self,
        annot: FPDF_ANNOTATION,
        appearanceMode: FPDF_ANNOT_APPEARANCEMODE,
        value: Option<&[u8]>,
    ) -> FPDF_BOOL
        requires
            value is Some ==> is_wide_text(value->0@),
    ;

    /// Sets the appearance string of an annotation for an appearance mode, encoding
    /// `value` for [PdfiumLibraryBindings::FPDFAnnot_SetAP]. It cannot clear an
    /// appearance string.
    #[allow(non_snake_case)]
    fn FPDFAnnot_SetAP_str(
        &self,
        annot: FPDF_ANNOTATION,
        appearanceMode: FPDF_ANNOT_APPEARANCEMODE,
        value: &str,
    ) -> FPDF_BOOL {
        let wide = get_pdfium_utf16le_bytes_from_str(value);
        self.FPDFAnnot_SetAP(annot, appearanceMode, Some(wide.as_slice()))
    }

    /// Adds an embedded file named `name` to a file annotation; returns the null
    /// handle on failure.
    #[allow(non_snake_case)]
    fn FPDFAnnot_AddFileAttachment(&self, annot: FPDF_ANNOTATION, name: &[u8]) -> FPDF_ATTACHMENT
        requires
            is_wide_text(name@),
    ;

    /// Adds an embedded file to a file annotation, encoding `name` for
    /// [PdfiumLibraryBindings::FPDFAnnot_AddFileAttachment].
    #[allow(non_snake_case)]
    fn FPDFAnnot_AddFileAttachment_str(&self, annot: FPDF_ANNOTATION, name: &str) -> FPDF_ATTACHMENT {
        let wide = get_pdfium_utf16le_bytes_from_str(name);
        self.FPDFAnnot_AddFileAttachment(annot, wide.as_slice())
    }

    /// Finds the first bookmark whose title equals `title`; returns the null handle
    /// when there is none.
    #[allow(non_snake_case)]
    fn FPDFBookmark_Find(&self, document: FPDF_DOCUMENT, title: &[u8]) -> FPDF_BOOKMARK
        requires
            is_wide_text(title@),
    ;

    /// Finds the first bookmark with the given title, encoding `title` for
    /// [PdfiumLibraryBindings::FPDFBookmark_Find].
    #[allow(non_snake_case)]
    fn FPDFBookmark_Find_str(&self, document: FPDF_DOCUMENT, title: &str) -> FPDF_BOOKMARK {
        let wide = get_pdfium_utf16le_bytes_from_str(title);
        self.FPDFBookmark_Find(document, wide.as_slice())
    }

    /// Copies the title of a bookmark, as a wide-text buffer, into `buffer` and
    /// returns the title's length in bytes, terminator included. With no buffer, or
    /// one shorter than that length, nothing is written and only the length is
    /// returned.
    #[allow(non_snake_case)]
    fn FPDFBookmark_GetTitle(&self, bookmark: FPDF_BOOKMARK, buffer: Option<&mut [u8]>) -> c_ulong;

    /// Starts a search for `findwhat` in the text of a page from `start_index`.
    #[allow(non_snake_case)]
    fn FPDFText_FindStart(
        &self,
        text_page: FPDF_TEXTPAGE,
        findwhat: &[u8],
        flags: c_ulong,
        start_index: c_int,
    ) -> FPDF_SCHHANDLE
        requires
            is_wide_text(findwhat@),
    ;

    /// Starts a search in the text of a page, encoding `findwhat` for
    /// [PdfiumLibraryBindings::FPDFText_FindStart].
    #[allow(non_snake_case)]
    fn FPDFText_FindStart_str(
        &self,
        text_page: FPDF_TEXTPAGE,
        findwhat: &str,
        flags: c_ulong,
        start_index: c_int,
    ) -> FPDF_SCHHANDLE {
        let wide = get_pdfium_utf16le_bytes_from_str(findwhat);
        self.FPDFText_FindStart(text_page, wide.as_slice(), flags, start_index)
    }

    /// Sets the text of a text object.
    #[allow(non_snake_case)]
    fn FPDFText_SetText(&self, text_object: FPDF_PAGEOBJECT, text: &[u8]) -> FPDF_BOOL
        requires
            is_wide_text(text@),
    ;

    /// Sets the text of a text object, encoding `text` for
    /// [PdfiumLibraryBindings::FPDFText_SetText].
    #[allow(non_snake_case)]
    fn FPDFText_SetText_str(&self, text_object: FPDF_PAGEOBJECT, text: &str) -> FPDF_BOOL {
        let wide = get_pdfium_utf16le_bytes_from_str(text);
        self.FPDFText_SetText(text_object, wide.as_slice())
    }

    /// Adds an embedded file named `name` to a document; returns the null handle on
    /// failure.
    #[allow(non_snake_case)]
    fn FPDFDoc_AddAttachment(&self, document: FPDF_DOCUMENT, name: &[u8]) -> FPDF_ATTACHMENT
        requires
            is_wide_text(name@),
    ;

    /// Adds an embedded file to a document, encoding `name` for
    /// [PdfiumLibraryBindings::FPDFDoc_AddAttachment].
    #[allow(non_snake_case)]
    fn FPDFDoc_AddAttachment_str(&self, document: FPDF_DOCUMENT, name: &str) -> FPDF_ATTACHMENT {
        let wide = get_pdfium_utf16le_bytes_from_str(name);
        self.FPDFDoc_AddAttachment(document, wide.as_slice())
    }

    /// Sets the string value for `key` in the parameters of an embedded file.
    #[allow(non_snake_case)]
    fn FPDFAttachment_SetStringValue(
        &self,
        attachment: FPDF_ATTACHMENT,
        key: &str,
        value: &[u8],
    ) -> FPDF_BOOL
        requires
            is_wide_text(value@),
    ;

    /// Sets the string value for `key` in the parameters of an embedded file,
    /// encoding `value` for [PdfiumLibraryBindings::FPDFAttachment_SetStringValue].
    #[allow(non_snake_case)]
    fn FPDFAttachment_SetStringValue_str(
        &self,
        attachment: FPDF_ATTACHMENT,
        key: &str,
        value: &str,
    ) -> FPDF_BOOL {
        let wide = get_pdfium_utf16le_bytes_from_str(value);
        self.FPDFAttachment_SetStringValue(attachment, key, wide.as_slice())
    }
}

} // verus!
