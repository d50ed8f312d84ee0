//! The font engine's error codes, as values a caller can match on.
use vstd::prelude::*;

verus! {

/// An error reported by the font engine.
#[derive(Debug, Clone, Copy, PartialEq, Eq, Structural)]
pub enum FreetypeError {
    /// A code not listed here.
    UnknownError(i32),
    /// Cannot open resource.
    CannotOpenResource,
    /// Unknown file format.
    UnknownFileFormat,
    /// Broken file.
    InvalidFileFormat,
    /// Invalid FreeType version.
    InvalidVersion,
    /// Module version is too low.
    LowerModuleVersion,
    /// Invalid argument.
    InvalidArgument,
    /// Unimplemented feature.
    UnimplementedFeature,
    /// Broken table.
    InvalidTable,
    /// Broken offset within table.
    InvalidOffset,
    /// Array allocation size too large.
    ArrayTooLarge,
    /// Missing module.
    MissingModule,
    /// Missing property.
    MissingProperty,
    /// Invalid glyph index.
    InvalidGlyphIndex,
    /// Invalid character code.
    InvalidCharacterCode,
    /// Unsupported glyph image format.
    InvalidGlyphFormat,
    /// Cannot render this glyph format.
    CannotRenderGlyph,
    /// Invalid outline.
    InvalidOutline,
    /// Invalid composite glyph.
    InvalidComposite,
    /// Too many hints.
    TooManyHints,
    /// Invalid pixel size.
    InvalidPixelSize,
    /// Invalid object handle.
    InvalidHandle,
    /// Invalid library handle.
    InvalidLibraryHandle,
    /// Invalid module handle.
    InvalidDriverHandle,
    /// Invalid face handle.
    InvalidFaceHandle,
    /// Invalid size handle.
    InvalidSizeHandle,
    /// Invalid glyph slot handle.
    InvalidSlotHandle,
    /// Invalid charmap handle.
    InvalidCharMapHandle,
    /// Invalid cache manager handle.
    InvalidCacheHandle,
    /// Invalid stream handle.
    InvalidStreamHandle,
    /// Too many modules.
    TooManyDrivers,
    /// Too many extensions.
    TooManyExtensions,
    /// Out of memory.
    OutOfMemory,
    /// Unlisted object.
    UnlistedObject,
    /// Cannot open stream.
    CannotOpenStream,
    /// Invalid stream seek.
    InvalidStreamSeek,
    /// Invalid stream skip.
    InvalidStreamSkip,
    /// Invalid stream read.
    InvalidStreamRead,
    /// Invalid stream operation.
    InvalidStreamOperation,
    /// Invalid frame operation.
    InvalidFrameOperation,
    /// Nested frame access.
    NestedFrameAccess,
    /// Invalid frame read.
    InvalidFrameRead,
    /// Raster uninitialized.
    RasterUninitialized,
    /// Raster corrupted.
    RasterCorrupted,
    /// Raster overflow.
    RasterOverflow,
    /// Negative height while rastering.
    RasterNegativeHeight,
    /// Too many registered caches.
    TooManyCaches,
    /// Invalid opcode.
    InvalidOpcode,
    /// Too few arguments.
    TooFewArguments,
    /// Stack overflow.
    StackOverflow,
    /// Code overflow.
    CodeOverflow,
    /// Bad argument.
    BadArgument,
    /// Division by zero.
    DivideByZero,
    /// Invalid reference.
    InvalidReference,
    /// Found debug opcode.
    DebugOpCode,
    /// Found ENDF opcode in execution stream.
    ENDFInExecStream,
    /// Nested DEFS.
    NestedDEFS,
    /// Invalid code range.
    InvalidCodeRange,
    /// Execution context too long.
    ExecutionTooLong,
    /// Too many function definitions.
    TooManyFunctionDefs,
    /// Too many instruction definitions.
    TooManyInstructionDefs,
    /// SFNT font table missing.
    TableMissing,
    /// Horizontal header (hhea) table missing.
    HorizHeaderMissing,
    /// Locations (loca) table missing.
    LocationsMissing,
    /// Name table missing.
    NameTableMissing,
    /// Character map (cmap) table missing.
    CMapTableMissing,
    /// Horizontal metrics (hmtx) table missing.
    HmtxTableMissing,
    /// PostScript (post) table missing.
    PostTableMissing,
    /// Invalid horizontal metrics.
    InvalidHorizMetrics,
    /// Invalid character map (cmap) format.
    InvalidCharMapFormat,
    /// Invalid ppem value.
    InvalidPPem,
    /// Invalid vertical metrics.
    InvalidVertMetrics,
    /// Could not find context.
    CouldNotFindContext,
    /// Invalid PostScript (post) table format.
    InvalidPostTableFormat,
    /// Invalid PostScript (post) table.
    InvalidPostTable,
    /// Found FDEF or IDEF opcode in glyf bytecode.
    DEFInGlyfBytecode,
    /// Missing bitmap in strike.
    MissingBitmap,
    /// Opcode syntax error.
    SyntaxError,
    /// Argument stack underflow.
    StackUnderflow,
    /// Ignore.
    Ignore,
    /// No Unicode glyph name found.
    NoUnicodeGlyphName,
    /// Glyph too big for hinting.
    GlyphTooBig,
    /// `STARTFONT' field missing.
    MissingStartfontField,
    /// `FONT' field missing.
    MissingFontField,
    /// `SIZE' field missing.
    MissingSizeField,
    /// `FONTBOUNDINGBOX' field missing.
    MissingFontboundingboxField,
    /// `CHARS' field missing.
    MissingCharsField,
    /// `STARTCHAR' field missing.
    MissingStartcharField,
    /// `ENCODING' field missing.
    MissingEncodingField,
    /// `BBX' field missing.
    MissingBbxField,
    /// `BBX' too big.
    BbxTooBig,
    /// Font header corrupted or missing fields.
    CorruptedFontHeader,
    /// Font glyphs corrupted or missing fields.
    CorruptedFontGlyphs,
}

/// The engine code of an error.
pub open spec fn error_code(e: FreetypeError) -> i32 {
    match e {
        FreetypeError::UnknownError(c) => c,
        FreetypeError::CannotOpenResource => 0x01,
        FreetypeError::UnknownFileFormat => 0x02,
        FreetypeError::InvalidFileFormat => 0x03,
        FreetypeError::InvalidVersion => 0x04,
        FreetypeError::LowerModuleVersion => 0x05,
        FreetypeError::InvalidArgument => 0x06,
        FreetypeError::UnimplementedFeature => 0x07,
        FreetypeError::InvalidTable => 0x08,
        FreetypeError::InvalidOffset => 0x09,
        FreetypeError::ArrayTooLarge => 0x0A,
        FreetypeError::MissingModule => 0x0B,
        FreetypeError::MissingProperty => 0x0C,
        FreetypeError::InvalidGlyphIndex => 0x10,
        FreetypeError::InvalidCharacterCode => 0x11,
        FreetypeError::InvalidGlyphFormat => 0x12,
        FreetypeError::CannotRenderGlyph => 0x13,
        FreetypeError::InvalidOutline => 0x14,
        FreetypeError::InvalidComposite => 0x15,
        FreetypeError::TooManyHints => 0x16,
        FreetypeError::InvalidPixelSize => 0x17,
        FreetypeError::InvalidHandle => 0x20,
        FreetypeError::InvalidLibraryHandle => 0x21,
        FreetypeError::InvalidDriverHandle => 0x22,
        FreetypeError::InvalidFaceHandle => 0x23,
        FreetypeError::InvalidSizeHandle => 0x24,
        FreetypeError::InvalidSlotHandle => 0x25,
        FreetypeError::InvalidCharMapHandle => 0x26,
        FreetypeError::InvalidCacheHandle => 0x27,
        FreetypeError::InvalidStreamHandle => 0x28,
        FreetypeError::TooManyDrivers => 0x30,
        FreetypeError::TooManyExtensions => 0x31,
        FreetypeError::OutOfMemory => 0x40,
        FreetypeError::UnlistedObject => 0x41,
        FreetypeError::CannotOpenStream => 0x51,
        FreetypeError::InvalidStreamSeek => 0x52,
        FreetypeError::InvalidStreamSkip => 0x53,
        FreetypeError::InvalidStreamRead => 0x54,
        FreetypeError::InvalidStreamOperation => 0x55,
        FreetypeError::InvalidFrameOperation => 0x56,
        FreetypeError::NestedFrameAccess => 0x57,
        FreetypeError::InvalidFrameRead => 0x58,
        FreetypeError::RasterUninitialized => 0x60,
        FreetypeError::RasterCorrupted => 0x61,
        FreetypeError::RasterOverflow => 0x62,
        FreetypeError::RasterNegativeHeight => 0x63,
        FreetypeError::TooManyCaches => 0x70,
        FreetypeError::InvalidOpcode => 0x80,
        FreetypeError::TooFewArguments => 0x81,
        FreetypeError::StackOverflow => 0x82,
        FreetypeError::CodeOverflow => 0x83,
        FreetypeError::BadArgument => 0x84,
        FreetypeError::DivideByZero => 0x85,
        FreetypeError::InvalidReference => 0x86,
        FreetypeError::DebugOpCode => 0x87,
        FreetypeError::ENDFInExecStream => 0x88,
        FreetypeError::NestedDEFS => 0x89,
        FreetypeError::InvalidCodeRange => 0x8A,
        FreetypeError::ExecutionTooLong => 0x8B,
        FreetypeError::TooManyFunctionDefs => 0x8C,
        FreetypeError::TooManyInstructionDefs => 0x8D,
        FreetypeError::TableMissing => 0x8E,
        FreetypeError::HorizHeaderMissing => 0x8F,
        FreetypeError::LocationsMissing => 0x90,
        FreetypeError::NameTableMissing => 0x91,
        FreetypeError::CMapTableMissing => 0x92,
        FreetypeError::HmtxTableMissing => 0x93,
        FreetypeError::PostTableMissing => 0x94,
        FreetypeError::InvalidHorizMetrics => 0x95,
        FreetypeError::InvalidCharMapFormat => 0x96,
        FreetypeError::InvalidPPem => 0x97,
        FreetypeError::InvalidVertMetrics => 0x98,
        FreetypeError::CouldNotFindContext => 0x99,
        FreetypeError::InvalidPostTableFormat => 0x9A,
        FreetypeError::InvalidPostTable => 0x9B,
        FreetypeError::DEFInGlyfBytecode => 0x9C,
        FreetypeError::MissingBitmap => 0x9D,
        FreetypeError::SyntaxError => 0xA0,
        FreetypeError::StackUnderflow => 0xA1,
        FreetypeError::Ignore => 0xA2,
        FreetypeError::NoUnicodeGlyphName => 0xA3,
        FreetypeError::GlyphTooBig => 0xA4,
        FreetypeError::MissingStartfontField => 0xB0,
        FreetypeError::MissingFontField => 0xB1,
        FreetypeError::MissingSizeField => 0xB2,
        FreetypeError::MissingFontboundingboxField => 0xB3,
        FreetypeError::MissingCharsField => 0xB4,
        FreetypeError::MissingStartcharField => 0xB5,
        FreetypeError::MissingEncodingField => 0xB6,
        FreetypeError::MissingBbxField => 0xB7,
        FreetypeError::BbxTooBig => 0xB8,
        FreetypeError::CorruptedFontHeader => 0xB9,
        FreetypeError::CorruptedFontGlyphs => 0xBA,
    }
}

/// The engine codes that have an error of their own.
pub open spec fn is_listed_code(c: i32) -> bool {
        c == 0x01 || c == 0x02 || c == 0x03 || c == 0x04 || c == 0x05 || c == 0x06 ||
            c == 0x07 || c == 0x08 || c == 0x09 || c == 0x0A || c == 0x0B || c == 0x0C ||
            c == 0x10 || c == 0x11 || c == 0x12 || c == 0x13 || c == 0x14 || c == 0x15 ||
            c == 0x16 || c == 0x17 || c == 0x20 || c == 0x21 || c == 0x22 || c == 0x23 ||
            c == 0x24 || c == 0x25 || c == 0x26 || c == 0x27 || c == 0x28 || c == 0x30 ||
            c == 0x31 || c == 0x40 || c == 0x41 || c == 0x51 || c == 0x52 || c == 0x53 ||
            c == 0x54 || c == 0x55 || c == 0x56 || c == 0x57 || c == 0x58 || c == 0x60 ||
            c == 0x61 || c == 0x62 || c == 0x63 || c == 0x70 || c == 0x80 || c == 0x81 ||
            c == 0x82 || c == 0x83 || c == 0x84 || c == 0x85 || c == 0x86 || c == 0x87 ||
            c == 0x88 || c == 0x89 || c == 0x8A || c == 0x8B || c == 0x8C || c == 0x8D ||
            c == 0x8E || c == 0x8F || c == 0x90 || c == 0x91 || c == 0x92 || c == 0x93 ||
            c == 0x94 || c == 0x95 || c == 0x96 || c == 0x97 || c == 0x98 || c == 0x99 ||
            c == 0x9A || c == 0x9B || c == 0x9C || c == 0x9D || c == 0xA0 || c == 0xA1 ||
            c == 0xA2 || c == 0xA3 || c == 0xA4 || c == 0xB0 || c == 0xB1 || c == 0xB2 ||
            c == 0xB3 || c == 0xB4 || c == 0xB5 || c == 0xB6 || c == 0xB7 || c == 0xB8 ||
            c == 0xB9 || c == 0xBA
}

impl FreetypeError {
    /// The error for an engine code; codes without an error of their own are
    /// kept in `UnknownError`.
    pub fn from_code(code: i32) -> (r: FreetypeError)
        ensures
            error_code(r) == code,
            r is UnknownError <==> !is_listed_code(code),
    {
        match code {
            0x01 => FreetypeError::CannotOpenResource,
            0x02 => FreetypeError::UnknownFileFormat,
            0x03 => FreetypeError::InvalidFileFormat,
            0x04 => FreetypeError::InvalidVersion,
            0x05 => FreetypeError::LowerModuleVersion,
            0x06 => FreetypeError::InvalidArgument,
            0x07 => FreetypeError::UnimplementedFeature,
            0x08 => FreetypeError::InvalidTable,
            0x09 => FreetypeError::InvalidOffset,
            0x0A => FreetypeError::ArrayTooLarge,
            0x0B => FreetypeError::MissingModule,
            0x0C => FreetypeError::MissingProperty,
            0x10 => FreetypeError::InvalidGlyphIndex,
            0x11 => FreetypeError::InvalidCharacterCode,
            0x12 => FreetypeError::InvalidGlyphFormat,
            0x13 => FreetypeError::CannotRenderGlyph,
            0x14 => FreetypeError::InvalidOutline,
            0x15 => FreetypeError::InvalidComposite,
            0x16 => FreetypeError::TooManyHints,
            0x17 => FreetypeError::InvalidPixelSize,
            0x20 => FreetypeError::InvalidHandle,
            0x21 => FreetypeError::InvalidLibraryHandle,
            0x22 => FreetypeError::InvalidDriverHandle,
            0x23 => FreetypeError::InvalidFaceHandle,
            0x24 => FreetypeError::InvalidSizeHandle,
            0x25 => FreetypeError::InvalidSlotHandle,
            0x26 => FreetypeError::InvalidCharMapHandle,
            0x27 => FreetypeError::InvalidCacheHandle,
            0x28 => FreetypeError::InvalidStreamHandle,
            0x30 => FreetypeError::TooManyDrivers,
            0x31 => FreetypeError::TooManyExtensions,
            0x40 => FreetypeError::OutOfMemory,
            0x41 => FreetypeError::UnlistedObject,
            0x51 => FreetypeError::CannotOpenStream,
            0x52 => FreetypeError::InvalidStreamSeek,
            0x53 => FreetypeError::InvalidStreamSkip,
            0x54 => FreetypeError::InvalidStreamRead,
            0x55 => FreetypeError::InvalidStreamOperation,
            0x56 => FreetypeError::InvalidFrameOperation,
            0x57 => FreetypeError::NestedFrameAccess,
            0x58 => FreetypeError::InvalidFrameRead,
            0x60 => FreetypeError::RasterUninitialized,
            0x61 => FreetypeError::RasterCorrupted,
            0x62 => FreetypeError::RasterOverflow,
            0x63 => FreetypeError::RasterNegativeHeight,
            0x70 => FreetypeError::TooManyCaches,
            0x80 => FreetypeError::InvalidOpcode,
            0x81 => FreetypeError::TooFewArguments,
            0x82 => FreetypeError::StackOverflow,
            0x83 => FreetypeError::CodeOverflow,
            0x84 => FreetypeError::BadArgument,
            0x85 => FreetypeError::DivideByZero,
            0x86 => FreetypeError::InvalidReference,
            0x87 => FreetypeError::DebugOpCode,
            0x88 => FreetypeError::ENDFInExecStream,
            0x89 => FreetypeError::NestedDEFS,
            0x8A => FreetypeError::InvalidCodeRange,
            0x8B => FreetypeError::ExecutionTooLong,
            0x8C => FreetypeError::TooManyFunctionDefs,
            0x8D => FreetypeError::TooManyInstructionDefs,
            0x8E => FreetypeError::TableMissing,
            0x8F => FreetypeError::HorizHeaderMissing,
            0x90 => FreetypeError::LocationsMissing,
            0x91 => FreetypeError::NameTableMissing,
            0x92 => FreetypeError::CMapTableMissing,
            0x93 => FreetypeError::HmtxTableMissing,
            0x94 => FreetypeError::PostTableMissing,
            0x95 => FreetypeError::InvalidHorizMetrics,
            0x96 => FreetypeError::InvalidCharMapFormat,
            0x97 => FreetypeError::InvalidPPem,
            0x98 => FreetypeError::InvalidVertMetrics,
            0x99 => FreetypeError::CouldNotFindContext,
            0x9A => FreetypeError::InvalidPostTableFormat,
            0x9B => FreetypeError::InvalidPostTable,
            0x9C => FreetypeError::DEFInGlyfBytecode,
            0x9D => FreetypeError::MissingBitmap,
            0xA0 => FreetypeError::SyntaxError,
            0xA1 => FreetypeError::StackUnderflow,
            0xA2 => FreetypeError::Ignore,
            0xA3 => FreetypeError::NoUnicodeGlyphName,
            0xA4 => FreetypeError::GlyphTooBig,
            0xB0 => FreetypeError::MissingStartfontField,
            0xB1 => FreetypeError::MissingFontField,
            0xB2 => FreetypeError::MissingSizeField,
            0xB3 => FreetypeError::MissingFontboundingboxField,
            0xB4 => FreetypeError::MissingCharsField,
            0xB5 => FreetypeError::MissingStartcharField,
            0xB6 => FreetypeError::MissingEncodingField,
            0xB7 => FreetypeError::MissingBbxField,
            0xB8 => FreetypeError::BbxTooBig,
            0xB9 => FreetypeError::CorruptedFontHeader,
            0xBA => FreetypeError::CorruptedFontGlyphs,
            _ => FreetypeError::UnknownError(code),
        }
    }
}

} // verus!
