use std::cell::RefCell;

use pdfium_render::bitmap::{bitmap_buffer_length, replace_pixel_buffer};
use pdfium_render::color::{alpha_of, blue_of, green_of, pack_argb, red_of};
use pdfium_render::pixels::{bgra_to_rgba, rgba_to_bgra, unaligned_bgr_to_rgba, unaligned_rgb_to_bgra};
use pdfium_render::utf16le::{get_pdfium_utf16le_bytes_from_str, get_string_from_pdfium_utf16le_bytes};
use pdfium_render::{
    c_int, c_ulong, PdfiumApiVersion, PdfiumError, PdfiumInternalError, PdfiumLibraryBindings,
    FPDF_ANNOTATION, FPDF_ANNOT_APPEARANCEMODE, FPDF_ATTACHMENT, FPDF_BITMAP, FPDF_BOOKMARK,
    FPDF_BOOL, FPDF_DOCUMENT, FPDF_PAGE, FPDF_PAGEOBJECT, FPDF_SCHHANDLE, FPDF_TEXTPAGE,
};

/// An in-memory stand-in for the engine: it records what the bindings hand it.
struct Recorder {
    last_wide: RefCell<Vec<u8>>,
    last_indices: RefCell<(Vec<c_int>, c_ulong)>,
    pixels: RefCell<Vec<u8>>,
    stride: c_int,
    height: c_int,
    title: Vec<u8>,
}

impl Recorder {
    fn new() -> Recorder {
        Recorder {
            last_wide: RefCell::new(Vec::new()),
            last_indices: RefCell::new((Vec::new(), 0)),
            pixels: RefCell::new(vec![0; 8]),
            stride: 4,
            height: 2,
            title: get_pdfium_utf16le_bytes_from_str("Chapter 1"),
        }
    }

    fn record(&self, wide: &[u8]) {
        *self.last_wide.borrow_mut() = wide.to_vec();
    }
}

impl PdfiumLibraryBindings for Recorder {
    fn FPDF_InitLibrary(&self) {}

    fn FPDF_DestroyLibrary(&self) {}

    fn FPDF_GetLastError(&self) -> c_ulong {
        0
    }

    fn FPDF_LoadMemDocument64(&self, data_buf: &[u8], _password: Option<&str>) -> FPDF_DOCUMENT {
        FPDF_DOCUMENT(data_buf.len())
    }

    fn FPDF_CloseDocument(&self, _document: FPDF_DOCUMENT) {}

    fn FPDF_GetPageCount(&self, _document: FPDF_DOCUMENT) -> c_int {
        3
    }

    fn FPDF_LoadPage(&self, _document: FPDF_DOCUMENT, page_index: c_int) -> FPDF_PAGE {
        FPDF_PAGE(page_index as usize + 1)
    }

    fn FPDF_ClosePage(&self, _page: FPDF_PAGE) {}

    fn FPDF_ImportPagesByIndex(
        &self,
        _dest_doc: FPDF_DOCUMENT,
        _src_doc: FPDF_DOCUMENT,
        page_indices: &[c_int],
        length: c_ulong,
        _index: c_int,
    ) -> FPDF_BOOL {
        *self.last_indices.borrow_mut() = (page_indices.to_vec(), length);
        1
    }

    fn FPDFBitmap_GetWidth(&self, _bitmap: FPDF_BITMAP) -> c_int {
        1
    }

    fn FPDFBitmap_GetHeight(&self, _bitmap: FPDF_BITMAP) -> c_int {
        self.height
    }

    fn FPDFBitmap_GetStride(&self, _bitmap: FPDF_BITMAP) -> c_int {
        self.stride
    }

    fn FPDFBitmap_SetBuffer(&self, _bitmap: FPDF_BITMAP, buffer: &[u8]) -> bool {
        let mut pixels = self.pixels.borrow_mut();
        replace_pixel_buffer(pixels.as_mut_slice(), self.stride, self.height, buffer)
    }

    fn FPDFAnnot_SetStringValue(&self, _annot: FPDF_ANNOTATION, _key: &str, value: &[u8]) -> FPDF_BOOL {
        self.record(value);
        1
    }

    fn FPDFAnnot_SetAP(
        &self,
        _annot: FPDF_ANNOTATION,
        _appearance_mode: FPDF_ANNOT_APPEARANCEMODE,
        value: Option<&[u8]>,
    ) -> FPDF_BOOL {
        self.record(value.unwrap_or(&[]));
        1
    }

    fn FPDFAnnot_AddFileAttachment(&self, _annot: FPDF_ANNOTATION, name: &[u8]) -> FPDF_ATTACHMENT {
        self.record(name);
        FPDF_ATTACHMENT(1)
    }

    fn FPDFBookmark_Find(&self, _document: FPDF_DOCUMENT, title: &[u8]) -> FPDF_BOOKMARK {
        self.record(title);
        FPDF_BOOKMARK(if title == self.title.as_slice() { 7 } else { 0 })
    }

    fn FPDFBookmark_GetTitle(&self, _bookmark: FPDF_BOOKMARK, buffer: Option<&mut [u8]>) -> c_ulong {
        if let Some(buffer) = buffer {
            if buffer.len() >= self.title.len() {
                buffer[..self.title.len()].copy_from_slice(&self.title);
            }
        }
        self.title.len() as c_ulong
    }

    fn FPDFText_FindStart(
        &self,
        _text_page: FPDF_TEXTPAGE,
        findwhat: &[u8],
        _flags: c_ulong,
        _start_index: c_int,
    ) -> FPDF_SCHHANDLE {
        self.record(findwhat);
        FPDF_SCHHANDLE(1)
    }

    fn FPDFText_SetText(&self, _text_object: FPDF_PAGEOBJECT, text: &[u8]) -> FPDF_BOOL {
        self.record(text);
        1
    }

    fn FPDFDoc_AddAttachment(&self, _document: FPDF_DOCUMENT, name: &[u8]) -> FPDF_ATTACHMENT {
        self.record(name);
        FPDF_ATTACHMENT(2)
    }

    fn FPDFAttachment_SetStringValue(
        &self,
        _attachment: FPDF_ATTACHMENT,
        _key: &str,
        value: &[u8],
    ) -> FPDF_BOOL {
        self.record(value);
        1
    }
}

#[test]
fn test_is_true() {
    let bindings = Recorder::new();

    assert!(!bindings.is_true(0));
    assert!(bindings.is_true(1));
    assert!(bindings.is_true(-1));
}

#[test]
fn canonical_booleans() {
    let bindings = Recorder::new();
    assert_eq!(bindings.TRUE(), 1);
    assert_eq!(bindings.FALSE(), 0);
    assert_eq!(bindings.bool_to_pdfium(true), 1);
    assert_eq!(bindings.bool_to_pdfium(false), 0);
}

#[test]
fn bool_round_trip() {
    let bindings = Recorder::new();
    for value in [true, false] {
        assert_eq!(bindings.is_true(bindings.bool_to_pdfium(value)), value);
    }
}

#[test]
fn to_result_fails_only_on_false() {
    let bindings = Recorder::new();
    assert_eq!(
        bindings.to_result(0),
        Err(PdfiumError::PdfiumLibraryInternalError(PdfiumInternalError::Unknown))
    );
    assert_eq!(bindings.to_result(1), Ok(()));
    assert_eq!(bindings.to_result(-1), Ok(()));
    assert_eq!(bindings.to_result(42), Ok(()));
}

#[test]
fn encodes_ascii_text() {
    assert_eq!(get_pdfium_utf16le_bytes_from_str("Ab"), vec![0x41, 0, 0x62, 0, 0, 0]);
    assert_eq!(get_pdfium_utf16le_bytes_from_str(""), vec![0, 0]);
}

#[test]
fn encodes_wide_and_supplementary_text() {
    // U+00E9, U+20AC, then U+1F600 as the surrogate pair D83D DE00.
    assert_eq!(
        get_pdfium_utf16le_bytes_from_str("\u{e9}\u{20ac}\u{1f600}"),
        vec![0xE9, 0x00, 0xAC, 0x20, 0x3D, 0xD8, 0x00, 0xDE, 0, 0]
    );
}

#[test]
fn decodes_wide_text() {
    let bytes = vec![0x41, 0, 0x3D, 0xD8, 0x00, 0xDE, 0, 0];
    assert_eq!(get_string_from_pdfium_utf16le_bytes(bytes), Some("A\u{1f600}".to_string()));
    assert_eq!(get_string_from_pdfium_utf16le_bytes(vec![]), Some(String::new()));
    assert_eq!(get_string_from_pdfium_utf16le_bytes(vec![0x41, 0]), Some("A".to_string()));
}

#[test]
fn decoding_stops_at_terminator() {
    let bytes = vec![0x41, 0, 0x42, 0, 0, 0, 0x43, 0];
    assert_eq!(get_string_from_pdfium_utf16le_bytes(bytes), Some("AB".to_string()));
}

#[test]
fn decoding_refuses_odd_length() {
    assert_eq!(get_string_from_pdfium_utf16le_bytes(vec![0x41, 0, 0]), None);
}

#[test]
fn decoding_refuses_unpaired_surrogates() {
    assert_eq!(get_string_from_pdfium_utf16le_bytes(vec![0x3D, 0xD8, 0x41, 0, 0, 0]), None);
    assert_eq!(get_string_from_pdfium_utf16le_bytes(vec![0x00, 0xDE, 0, 0]), None);
    assert_eq!(get_string_from_pdfium_utf16le_bytes(vec![0x3D, 0xD8]), None);
}

#[test]
fn wide_text_round_trip() {
    let bindings = Recorder::new();
    for text in ["", "Hello, world", "gr\u{fc}\u{df}e \u{4e16}\u{754c} \u{1f600}\u{1f4c4}"] {
        let bytes = bindings.get_pdfium_utf16le_bytes_from_str(text);
        assert_eq!(bindings.get_string_from_pdfium_utf16le_bytes(bytes), Some(text.to_string()));
    }
}

#[test]
fn bgr_expands_to_opaque_rgba() {
    let bindings = Recorder::new();
    let rgba = bindings.bgr_to_rgba(&[1, 2, 3, 4, 5, 6]);
    assert_eq!(rgba, vec![3, 2, 1, 255, 6, 5, 4, 255]);
    assert_eq!(rgba.len() * 3, 6 * 4);
    assert!(rgba.iter().skip(3).step_by(4).all(|a| *a == 255));
    assert_eq!(unaligned_bgr_to_rgba(&[]), Vec::<u8>::new());
}

#[test]
fn partial_pixel_is_ignored() {
    assert_eq!(unaligned_bgr_to_rgba(&[1, 2, 3, 4]), vec![3, 2, 1, 255]);
    assert_eq!(bgra_to_rgba(&[1, 2, 3, 4, 5]), vec![3, 2, 1, 4]);
}

#[test]
fn rgb_expands_to_opaque_bgra() {
    let bindings = Recorder::new();
    assert_eq!(bindings.rgb_to_bgra(&[10, 20, 30]), vec![30, 20, 10, 255]);
    assert_eq!(unaligned_rgb_to_bgra(&[10, 20, 30, 40, 50, 60]), vec![30, 20, 10, 255, 60, 50, 40, 255]);
}

#[test]
fn four_channel_swaps() {
    let bindings = Recorder::new();
    assert_eq!(bindings.bgra_to_rgba(&[1, 2, 3, 4, 5, 6, 7, 8]), vec![3, 2, 1, 4, 7, 6, 5, 8]);
    assert_eq!(bindings.rgba_to_bgra(&[9, 8, 7, 6]), vec![7, 8, 9, 6]);
}

#[test]
fn channel_swap_involution() {
    let pixels: Vec<u8> = (0..32).map(|i| (i * 7 + 3) as u8).collect();
    assert_eq!(rgba_to_bgra(&bgra_to_rgba(&pixels)), pixels);
}

#[test]
fn argb_packing() {
    let bindings = Recorder::new();
    let word = bindings.FPDF_ARGB(0x11, 0x22, 0x33, 0x44);
    assert_eq!(word, 0x1122_3344);
    assert_eq!(bindings.FPDF_GetAValue(word), 0x11);
    assert_eq!(bindings.FPDF_GetRValue(word), 0x22);
    assert_eq!(bindings.FPDF_GetGValue(word), 0x33);
    assert_eq!(bindings.FPDF_GetBValue(word), 0x44);
    assert_eq!(pack_argb(255, 0, 0, 0), 0xFF00_0000);
    assert_eq!((alpha_of(0x80FF_4001), red_of(0x80FF_4001)), (0x80, 0xFF));
    assert_eq!((green_of(0x80FF_4001), blue_of(0x80FF_4001)), (0x40, 0x01));
}

#[test]
fn version_is_newest_release() {
    let bindings = Recorder::new();
    assert_eq!(bindings.version(), PdfiumApiVersion::V6666);
    assert_eq!(PdfiumApiVersion::current(), PdfiumApiVersion::V6666);
}

#[test]
fn buffer_length_of_bitmap() {
    assert_eq!(bitmap_buffer_length(16, 3), Some(48));
    assert_eq!(bitmap_buffer_length(0, 3), Some(0));
    assert_eq!(bitmap_buffer_length(-4, 3), None);
    assert_eq!(bitmap_buffer_length(4, -3), None);
    assert_eq!(bitmap_buffer_length(-4, -3), Some(12));
}

#[test]
fn replace_pixel_buffer_matching_length() {
    let mut destination = vec![0u8; 6];
    assert!(replace_pixel_buffer(&mut destination, 3, 2, &[1, 2, 3, 4, 5, 6]));
    assert_eq!(destination, vec![1, 2, 3, 4, 5, 6]);
}

#[test]
fn replace_pixel_buffer_wrong_length() {
    let mut destination = vec![9u8; 6];
    assert!(!replace_pixel_buffer(&mut destination, 3, 2, &[1, 2, 3, 4, 5]));
    assert!(!replace_pixel_buffer(&mut destination, 3, 2, &[1, 2, 3, 4, 5, 6, 7]));
    assert!(!replace_pixel_buffer(&mut destination, 4, 2, &[1, 2, 3, 4, 5, 6]));
    assert_eq!(destination, vec![9u8; 6]);
}

#[test]
fn set_buffer_through_bindings() {
    let bindings = Recorder::new();
    let bitmap = FPDF_BITMAP(1);
    assert!(!bindings.FPDFBitmap_SetBuffer(bitmap, &[1, 2, 3]));
    assert_eq!(*bindings.pixels.borrow(), vec![0u8; 8]);
    assert!(bindings.FPDFBitmap_SetBuffer(bitmap, &[1, 2, 3, 4, 5, 6, 7, 8]));
    assert_eq!(*bindings.pixels.borrow(), vec![1, 2, 3, 4, 5, 6, 7, 8]);
}

#[test]
fn str_helpers_hand_over_wide_text() {
    let bindings = Recorder::new();
    let expected = vec![0x78, 0, 0xE9, 0, 0, 0];

    bindings.FPDFAnnot_SetStringValue_str(FPDF_ANNOTATION(1), "Contents", "x\u{e9}");
    assert_eq!(*bindings.last_wide.borrow(), expected);
    bindings.FPDFAnnot_SetAP_str(FPDF_ANNOTATION(1), 0, "x\u{e9}");
    assert_eq!(*bindings.last_wide.borrow(), expected);
    bindings.FPDFAnnot_AddFileAttachment_str(FPDF_ANNOTATION(1), "x\u{e9}");
    assert_eq!(*bindings.last_wide.borrow(), expected);
    bindings.FPDFText_FindStart_str(FPDF_TEXTPAGE(1), "x\u{e9}", 0, 0);
    assert_eq!(*bindings.last_wide.borrow(), expected);
    bindings.FPDFText_SetText_str(FPDF_PAGEOBJECT(1), "x\u{e9}");
    assert_eq!(*bindings.last_wide.borrow(), expected);
    bindings.FPDFDoc_AddAttachment_str(FPDF_DOCUMENT(1), "x\u{e9}");
    assert_eq!(*bindings.last_wide.borrow(), expected);
    bindings.FPDFAttachment_SetStringValue_str(FPDF_ATTACHMENT(1), "Key", "x\u{e9}");
    assert_eq!(*bindings.last_wide.borrow(), expected);
}

#[test]
fn bookmark_found_by_str_title() {
    let bindings = Recorder::new();
    assert_eq!(bindings.FPDFBookmark_Find_str(FPDF_DOCUMENT(1), "Chapter 1"), FPDF_BOOKMARK(7));
    assert_eq!(bindings.FPDFBookmark_Find_str(FPDF_DOCUMENT(1), "Chapter 2"), FPDF_BOOKMARK(0));
}

#[test]
fn import_pages_passes_indices_and_count() {
    let bindings = Recorder::new();
    let result = bindings.FPDF_ImportPagesByIndex_vec(FPDF_DOCUMENT(1), FPDF_DOCUMENT(2), vec![0, 2, 5], 1);
    assert!(bindings.is_true(result));
    assert_eq!(*bindings.last_indices.borrow(), (vec![0, 2, 5], 3));
}

#[test]
fn load_mem_document_forwards() {
    let bindings = Recorder::new();
    assert_eq!(bindings.FPDF_LoadMemDocument(&[1, 2, 3, 4], None), FPDF_DOCUMENT(4));
}

#[test]
fn size_query_then_fill_then_decode() {
    let bindings = Recorder::new();
    let bookmark = FPDF_BOOKMARK(7);
    let needed = bindings.FPDFBookmark_GetTitle(bookmark, None) as usize;
    assert_eq!(needed, 20);
    let mut short = vec![0u8; needed - 2];
    assert_eq!(bindings.FPDFBookmark_GetTitle(bookmark, Some(&mut short)) as usize, needed);
    assert_eq!(short, vec![0u8; needed - 2]);
    let mut buffer = vec![0u8; needed];
    assert_eq!(bindings.FPDFBookmark_GetTitle(bookmark, Some(&mut buffer)) as usize, needed);
    assert_eq!(bindings.get_string_from_pdfium_utf16le_bytes(buffer), Some("Chapter 1".to_string()));
}
