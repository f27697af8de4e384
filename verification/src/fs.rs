//! Save-file framing: the magic-and-version header, deflate compression of the payload, and
//! the CRC32 that identifies a ROM.
use vstd::prelude::*;
use vstd::string::*;

verus! {

/// How many bytes the save-file magic takes.
pub const SAVE_FILE_MAGIC_LEN: usize = 8;
/// The save format version this build writes. Kept apart from the crate version because
/// breaking API changes may not invalidate the save format.
pub const SAVE_VERSION: &'static str = "2";
/// Version for the bundled game database, independent of the save format.
pub const GAME_DB_VERSION: &'static str = "1";
/// Version for battery-backed cart RAM: a `.sram` file holds a board's battery contents, not a
/// snapshot of console state, so a save-state layout change must not move it.
pub const SRAM_VERSION: &'static str = "1";

/// The magic every save file starts with: `TETANES` and an end-of-file byte.
pub open spec fn save_file_magic() -> Seq<u8> {
    seq![0x54u8, 0x45u8, 0x54u8, 0x41u8, 0x4Eu8, 0x45u8, 0x53u8, 0x1Au8]
}

#[verifier::external_type_specification]
#[verifier::external_body]
pub struct ExIoError(std::io::Error);

#[verifier::external_type_specification]
#[verifier::external_body]
pub struct ExPathBuf(std::path::PathBuf);

/// Errors from reading or writing a save file, save state or SRAM.
#[derive(Debug)]
pub enum Error {
    /// The file's magic or version did not match what this build writes.
    InvalidHeader(String),
    /// The header could not be written.
    WriteHeaderFailed(std::io::Error),
    /// Deflate compression failed.
    EncodingFailed(std::io::Error),
    /// Deflate decompression failed.
    DecodingFailed(std::io::Error),
    /// The value could not be serialized.
    SerializationFailed(String),
    /// The bytes could not be deserialized into the expected type.
    DeserializationFailed(String),
    /// The path was not usable, e.g. it had no filename.
    InvalidPath(std::path::PathBuf),
    /// An underlying I/O error, with what was being done at the time.
    Io {
        /// The underlying I/O error.
        source: std::io::Error,
        /// What was being read or written.
        context: String,
    },
    /// A platform backend's own error.
    Custom(String),
}

/// What `format!("{:?}", s)` makes of a string: it quoted, with the characters Rust escapes
/// escaped.
pub uninterp spec fn debug_quoted(s: Seq<char>) -> Seq<char>;

/// What `String::from_utf8_lossy` makes of `bytes`.
pub uninterp spec fn utf8_lossy(bytes: Seq<u8>) -> Seq<char>;

/// Formats `s` with its `Debug` impl, as `format!("{:?}", s)` does.
#[verifier::external_body]
fn debug_quote(s: &str) -> (r: String)
    ensures
        r@ == debug_quoted(s@),
{
    format!("{:?}", s)
}

/// Decodes `bytes` as UTF-8 with `String::from_utf8_lossy`, which replaces what is not UTF-8
/// and leaves ASCII as the characters it encodes.
#[verifier::external_body]
fn from_utf8_lossy(bytes: &[u8]) -> (r: String)
    ensures
        r@ == utf8_lossy(bytes@),
        (forall|i: int| 0 <= i < bytes@.len() ==> bytes@[i] < 0x80) ==> r@ == bytes@.map_values(|b: u8| b as char),
{
    String::from_utf8_lossy(bytes).into_owned()
}

/// `std::io::Read::read_exact` of one byte from no data, which its documentation says fails
/// with an `UnexpectedEof` error.
#[verifier::external_body]
fn read_exact_past_end() -> (r: Result<(), std::io::Error>)
    ensures
        r is Err,
{
    let mut empty: &[u8] = &[];
    let mut buf = [0u8; 1];
    std::io::Read::read_exact(&mut empty, &mut buf)
}

/// Formats an I/O error with its `Display` impl, as `to_string` does.
#[verifier::external_body]
fn io_error_display(err: &std::io::Error) -> (r: String) {
    err.to_string()
}

/// The message `std::io::Read::read_exact` reports when the data runs out.
fn read_exact_eof_message() -> (r: String) {
    match read_exact_past_end() {
        Ok(()) => String::new(),
        Err(err) => io_error_display(&err),
    }
}

/// Formats an I/O error with its `Debug` impl.
#[verifier::external_body]
pub(crate) fn io_error_debug(err: &std::io::Error) -> (r: String) {
    format!("{:?}", err)
}

/// Formats a path with its `Debug` impl.
#[verifier::external_body]
fn path_debug(path: &std::path::PathBuf) -> (r: String) {
    format!("{:?}", path)
}

/// `s` followed by `t`, in a new string.
fn joined(s: &str, t: &str) -> (r: String)
    ensures
        r@ == s@ + t@,
{
    let mut r = String::from_str(s);
    r.append(t);
    r
}

impl Error {
    /// Wraps an I/O error with a description of what was being done.
    pub fn io(source: std::io::Error, context: String) -> (e: Self)
        ensures
            e matches Error::Io { context: c, .. } && c@ == context@,
    {
        Error::Io { source, context }
    }

    /// Builds an error from a platform backend's own message.
    pub fn custom(error: String) -> (e: Self)
        ensures
            e matches Error::Custom(m) && m@ == error@,
    {
        Error::Custom(error)
    }

    /// The error as a player reads it.
    pub fn message(&self) -> (m: String)
        ensures
            self matches Error::InvalidHeader(h) ==> m@ == "invalid tetanes header: "@ + h@,
            self matches Error::Custom(c) ==> m@ == c@,
            self matches Error::SerializationFailed(e) ==> m@ == "failed to serialize data: "@ + debug_quoted(e@),
            self matches Error::DeserializationFailed(e) ==> m@ == "failed to deserialize data: "@ + debug_quoted(e@),
            self matches Error::WriteHeaderFailed(_) ==> m@.len() >= 32 && m@.subrange(0, 32) == "failed to write tetanes header: "@,
            self matches Error::EncodingFailed(_) ==> m@.len() >= 23 && m@.subrange(0, 23) == "failed to encode data: "@,
            self matches Error::DecodingFailed(_) ==> m@.len() >= 23 && m@.subrange(0, 23) == "failed to decode data: "@,
            self matches Error::InvalidPath(_) ==> m@.len() >= 14 && m@.subrange(0, 14) == "invalid path: "@,
            self matches Error::Io { context, .. } ==> m@.len() >= context@.len() + 2
                && m@.subrange(0, context@.len() + 2int) == context@ + ": "@,
    {
        proof {
            reveal_strlit("failed to write tetanes header: ");
            reveal_strlit("failed to encode data: ");
            reveal_strlit("failed to decode data: ");
            reveal_strlit("invalid path: ");
            reveal_strlit(": ");
        }
        match self {
            Error::InvalidHeader(h) => joined("invalid tetanes header: ", h.as_str()),
            Error::WriteHeaderFailed(e) => joined("failed to write tetanes header: ", io_error_debug(e).as_str()),
            Error::EncodingFailed(e) => joined("failed to encode data: ", io_error_debug(e).as_str()),
            Error::DecodingFailed(e) => joined("failed to decode data: ", io_error_debug(e).as_str()),
            Error::SerializationFailed(s) => joined("failed to serialize data: ", debug_quote(s.as_str()).as_str()),
            Error::DeserializationFailed(s) => joined("failed to deserialize data: ", debug_quote(s.as_str()).as_str()),
            Error::InvalidPath(p) => joined("invalid path: ", path_debug(p).as_str()),
            Error::Io { source, context } => {
                let head = joined(context.as_str(), ": ");
                joined(head.as_str(), io_error_debug(source).as_str())
            },
            Error::Custom(c) => String::from_str(c.as_str()),
        }
    }
}

/// The bytes a header for `version` takes: the magic, then the version.
pub open spec fn header_bytes(version: &str) -> Seq<u8> {
    save_file_magic() + version.spec_bytes()
}

/// Appends a header, the magic then `version`, to `f`. Writing to memory cannot fail.
pub fn write_header(f: &mut Vec<u8>, version: &str) -> (r: Result<(), std::io::Error>)
    ensures
        r is Ok,
        final(f)@ == old(f)@ + header_bytes(version),
{
    let magic: [u8; 8] = [0x54, 0x45, 0x54, 0x41, 0x4E, 0x45, 0x53, 0x1A];
    let ghost start = f@;
    let mut i: usize = 0;
    while i < 8
        invariant
            i <= 8,
            magic@ == save_file_magic(),
            f@ == start + save_file_magic().take(i as int),
        decreases 8 - i,
    {
        f.push(magic[i]);
        proof {
            assert(save_file_magic().take(i + 1) =~= save_file_magic().take(i as int).push(magic@[i as int]));
        }
        i = i + 1;
    }
    let bytes = version.as_bytes();
    let ghost mid = f@;
    let mut j: usize = 0;
    while j < bytes.len()
        invariant
            j <= bytes@.len(),
            bytes@ == version.spec_bytes(),
            mid == start + save_file_magic(),
            f@ == mid + bytes@.take(j as int),
        decreases bytes@.len() - j,
    {
        f.push(bytes[j]);
        proof {
            assert(bytes@.take(j + 1) =~= bytes@.take(j as int).push(bytes@[j as int]));
        }
        j = j + 1;
    }
    proof {
        assert(save_file_magic().take(8) =~= save_file_magic());
        assert(bytes@.take(bytes@.len() as int) =~= bytes@);
        assert(f@ =~= start + header_bytes(version));
    }
    Ok(())
}

/// Whether `data` starts with the header for `expected`: the magic, then `expected` as its one
/// version byte.
pub open spec fn header_matches(data: Seq<u8>, expected: &str) -> bool {
    &&& data.len() >= 9
    &&& data.subrange(0, 8) == save_file_magic()
    &&& expected.spec_bytes() == seq![data[8]]
}

/// The message for data whose first eight bytes are not the magic.
pub open spec fn bad_magic_message(found: Seq<u8>) -> Seq<char> {
    "invalid magic (expected "@ + debug_quoted(utf8_lossy(save_file_magic())) + ", found "@
        + debug_quoted(utf8_lossy(found)) + ")"@
}

/// The message for a version byte that is not `expected`.
pub open spec fn bad_version_message(expected: &str, found: u8) -> Seq<char> {
    "invalid version (expected "@ + debug_quoted(expected@) + ", found "@
        + debug_quoted(utf8_lossy(seq![found])) + ")"@
}

/// The first `n` bytes of `data`, copied.
fn prefix(data: &[u8], n: usize) -> (v: Vec<u8>)
    requires
        n <= data@.len(),
    ensures
        v@ == data@.subrange(0, n as int),
{
    let mut v: Vec<u8> = Vec::new();
    let mut i: usize = 0;
    while i < n
        invariant
            i <= n,
            n <= data@.len(),
            v@ == data@.subrange(0, i as int),
        decreases n - i,
    {
        v.push(data[i]);
        proof {
            assert(data@.subrange(0, i + 1) =~= data@.subrange(0, i as int).push(data@[i as int]));
        }
        i = i + 1;
    }
    v
}

/// Checks the header at the front of `data`: the magic, then a one-byte version that has to be
/// `expected`.
///
/// # Errors
///
/// If the data is too short, the magic does not match, or the version is not `expected`.
pub fn validate_header(data: &[u8], expected: &str) -> (r: Result<(), Error>)
    ensures
        r is Ok <==> header_matches(data@, expected),
        r is Err ==> r matches Err(Error::InvalidHeader(_)),
        data@.len() >= 8 && data@.subrange(0, 8) != save_file_magic()
            ==> (r matches Err(Error::InvalidHeader(m)) && m@ == bad_magic_message(data@.subrange(0, 8))),
        data@.len() >= 9 && data@.subrange(0, 8) == save_file_magic() && !header_matches(data@, expected)
            ==> (r matches Err(Error::InvalidHeader(m)) && m@ == bad_version_message(expected, data@[8])),
{
    let magic: [u8; 8] = [0x54, 0x45, 0x54, 0x41, 0x4E, 0x45, 0x53, 0x1A];
    if data.len() < 8 {
        return Err(Error::InvalidHeader(read_exact_eof_message()));
    }
    let mut same = true;
    let mut i: usize = 0;
    proof {
        assert(data@.subrange(0, 0) =~= save_file_magic().take(0));
    }
    while i < 8
        invariant
            i <= 8,
            data@.len() >= 8,
            magic@ == save_file_magic(),
            same == (data@.subrange(0, i as int) == save_file_magic().take(i as int)),
        decreases 8 - i,
    {
        proof {
            assert(data@.subrange(0, i + 1) =~= data@.subrange(0, i as int).push(data@[i as int]));
            assert(save_file_magic().take(i + 1) =~= save_file_magic().take(i as int).push(save_file_magic()[i as int]));
            if !same {
                assert(data@.subrange(0, i + 1) != save_file_magic().take(i + 1)) by {
                    if data@.subrange(0, i + 1) == save_file_magic().take(i + 1) {
                        assert(data@.subrange(0, i as int) =~= data@.subrange(0, i + 1).drop_last());
                        assert(save_file_magic().take(i as int) =~= save_file_magic().take(i + 1).drop_last());
                    }
                }
            }
        }
        if data[i] != magic[i] {
            same = false;
            proof {
                assert(data@.subrange(0, i + 1)[i as int] != save_file_magic().take(i + 1)[i as int]);
            }
        }
        i = i + 1;
    }
    proof {
        assert(save_file_magic().take(8) =~= save_file_magic());
    }
    if !same {
        let expected_text = debug_quote(from_utf8_lossy(&magic).as_str());
        let found = prefix(data, 8);
        let found_text = debug_quote(from_utf8_lossy(found.as_slice()).as_str());
        let a = joined("invalid magic (expected ", expected_text.as_str());
        let b = joined(a.as_str(), ", found ");
        let c = joined(b.as_str(), found_text.as_str());
        let msg = joined(c.as_str(), ")");
        return Err(Error::InvalidHeader(msg));
    }
    if data.len() < 9 {
        return Err(Error::InvalidHeader(read_exact_eof_message()));
    }
    let version = data[8];
    let want = expected.as_bytes();
    if want.len() == 1 && want[0] == version {
        proof {
            assert(want@ =~= seq![data@[8]]);
        }
        Ok(())
    } else {
        let one: [u8; 1] = [version];
        let found_text = debug_quote(from_utf8_lossy(&one).as_str());
        let expected_text = debug_quote(expected);
        proof {
            assert(one@ =~= seq![data@[8]]);
            assert(want@ != seq![data@[8]]);
        }
        let a = joined("invalid version (expected ", expected_text.as_str());
        let b = joined(a.as_str(), ", found ");
        let c = joined(b.as_str(), found_text.as_str());
        let msg = joined(c.as_str(), ")");
        Err(Error::InvalidHeader(msg))
    }
}

/// What deflate compression at the default level makes of `data`.
pub uninterp spec fn deflated(data: Seq<u8>) -> Seq<u8>;

/// Deflate-compresses `data` with flate2's `DeflateEncoder` at the default level. The encoder
/// writes into a `Vec`, which never refuses bytes, and compressing a fresh stream at a valid
/// level does not fail, so the call always succeeds.
#[verifier::external_body]
fn deflate(data: &[u8]) -> (r: Result<Vec<u8>, std::io::Error>)
    ensures
        r is Ok,
        r matches Ok(v) ==> v@ == deflated(data@),
{
    let mut encoder = flate2::write::DeflateEncoder::new(Vec::new(), flate2::Compression::default());
    match std::io::Write::write_all(&mut encoder, data) {
        Ok(()) => encoder.finish(),
        Err(err) => Err(err),
    }
}

/// What flate2's `DeflateDecoder` makes of `data`: the bytes it decodes to, or `None` where
/// `data` is not a complete deflate stream.
pub uninterp spec fn inflated(data: Seq<u8>) -> Option<Seq<u8>>;

/// Deflate-decompresses `data` with flate2's `DeflateDecoder`. Compression is lossless, so a
/// stream the encoder made decodes to what it was made from.
#[verifier::external_body]
fn inflate(data: &[u8]) -> (r: Result<Vec<u8>, std::io::Error>)
    ensures
        r is Ok <==> inflated(data@) is Some,
        r matches Ok(v) ==> inflated(data@) == Some(v@),
        (exists|x: Seq<u8>| #[trigger] deflated(x) == data@) ==> r is Ok,
        r matches Ok(v) ==> forall|x: Seq<u8>| #[trigger] deflated(x) == data@ ==> v@ == x,
{
    let mut decoded = Vec::new();
    let mut decoder = flate2::read::DeflateDecoder::new(data);
    match std::io::Read::read_to_end(&mut decoder, &mut decoded) {
        Ok(_) => Ok(decoded),
        Err(err) => Err(err),
    }
}

/// The bytes of `data` from `n` on, copied.
fn suffix(data: &[u8], n: usize) -> (v: Vec<u8>)
    requires
        n <= data@.len(),
    ensures
        v@ == data@.subrange(n as int, data@.len() as int),
{
    let mut v: Vec<u8> = Vec::new();
    let mut i: usize = n;
    while i < data.len()
        invariant
            n <= i <= data@.len(),
            v@ == data@.subrange(n as int, i as int),
        decreases data@.len() - i,
    {
        v.push(data[i]);
        proof {
            assert(data@.subrange(n as int, i + 1) =~= data@.subrange(n as int, i as int).push(data@[i as int]));
        }
        i = i + 1;
    }
    v
}

/// Frames serialized `data` as a save file for `version`: the header, then the data
/// deflate-compressed. Compressing into memory does not fail, so this always returns `Ok`.
pub fn encode_save(data: &[u8], version: &str) -> (r: Result<Vec<u8>, Error>)
    ensures
        r is Ok,
        r matches Ok(v) ==> v@ == header_bytes(version) + deflated(data@),
{
    let mut out: Vec<u8> = Vec::new();
    let _ = write_header(&mut out, version);
    match deflate(data) {
        Ok(compressed) => {
            let ghost head = out@;
            let mut i: usize = 0;
            while i < compressed.len()
                invariant
                    i <= compressed@.len(),
                    out@ == head + compressed@.take(i as int),
                decreases compressed@.len() - i,
            {
                out.push(compressed[i]);
                proof {
                    assert(compressed@.take(i + 1) =~= compressed@.take(i as int).push(compressed@[i as int]));
                }
                i = i + 1;
            }
            proof {
                assert(compressed@.take(compressed@.len() as int) =~= compressed@);
            }
            Ok(out)
        },
        Err(err) => Err(Error::EncodingFailed(err)),
    }
}

/// Unframes a save file for `version`: checks the header, then decompresses what follows it.
/// What [`encode_save`] framed for a one-byte version comes back as it went in.
///
/// # Errors
///
/// If the header does not check out, or what follows it does not decompress.
pub fn decode_save(bytes: &[u8], version: &str) -> (r: Result<Vec<u8>, Error>)
    ensures
        !header_matches(bytes@, version) ==> r matches Err(Error::InvalidHeader(_)),
        r is Ok ==> header_matches(bytes@, version),
        r matches Err(e) ==> (e is InvalidHeader || e is DecodingFailed),
        forall|x: Seq<u8>| version.spec_bytes().len() == 1 && bytes@ == header_bytes(version) + #[trigger] deflated(x)
            ==> (r matches Ok(v) && v@ == x),
        header_matches(bytes@, version) ==> match inflated(bytes@.subrange(9, bytes@.len() as int)) {
            Some(x) => r matches Ok(v) && v@ == x,
            None => r matches Err(Error::DecodingFailed(_)),
        },
{
    match validate_header(bytes, version) {
        Ok(()) => {},
        Err(e) => {
            proof {
                assert forall|x: Seq<u8>| version.spec_bytes().len() == 1 && bytes@ == header_bytes(version) + #[trigger] deflated(x)
                    implies false by {
                    let h = header_bytes(version);
                    assert(bytes@.subrange(0, 8) =~= save_file_magic());
                    assert(version.spec_bytes() =~= seq![bytes@[8]]);
                }
            }
            return Err(e);
        },
    }
    let rest = suffix(bytes, 9);
    proof {
        assert forall|x: Seq<u8>| version.spec_bytes().len() == 1 && bytes@ == header_bytes(version) + #[trigger] deflated(x)
            implies rest@ == deflated(x) by {
            assert(rest@ =~= deflated(x));
        }
    }
    match inflate(rest.as_slice()) {
        Ok(v) => Ok(v),
        Err(err) => Err(Error::DecodingFailed(err)),
    }
}

/// One step of the bitwise CRC-32 division (reflected polynomial `0xEDB88320`).
pub open spec fn crc_round(c: u32) -> u32 {
    if c & 1 == 1 { 0xEDB88320u32 ^ (c >> 1u32) } else { c >> 1u32 }
}

/// `n` steps of the CRC-32 division.
pub open spec fn crc_rounds(c: u32, n: nat) -> u32
    decreases n,
{
    if n == 0 { c } else { crc_round(crc_rounds(c, (n - 1) as nat)) }
}

/// The CRC-32 table entry for byte `i`: eight division steps.
pub open spec fn crc_table(i: u32) -> u32 {
    crc_rounds(i, 8)
}

/// The CRC-32 register after taking in one more byte.
pub open spec fn crc_step(c: u32, b: u8) -> u32 {
    (c >> 8u32) ^ crc_table((c ^ (b as u32)) & 0xFF)
}

/// The CRC-32 register after taking in `data`, starting from `c`.
pub open spec fn crc_register(c: u32, data: Seq<u8>) -> u32
    decreases data.len(),
{
    if data.len() == 0 { c } else { crc_step(crc_register(c, data.drop_last()), data.last()) }
}

/// The CRC-32 of `data`, continuing from the CRC `crc` of what came before it.
pub open spec fn crc32_continued(crc: u32, data: Seq<u8>) -> u32 {
    crc_register(crc ^ 0xFFFF_FFFFu32, data) ^ 0xFFFF_FFFFu32
}

/// The CRC-32 table, entry `i` for byte `i`.
fn build_crc_table() -> (t: Vec<u32>)
    ensures
        t@.len() == 256,
        forall|i: int| 0 <= i < 256 ==> #[trigger] t@[i] == crc_table(i as u32),
{
    let mut t: Vec<u32> = Vec::new();
    let mut i: u32 = 0;
    while i < 256
        invariant
            i <= 256,
            t@.len() == i,
            forall|j: int| 0 <= j < i ==> #[trigger] t@[j] == crc_table(j as u32),
        decreases 256 - i,
    {
        let mut c: u32 = i;
        let mut k: u32 = 0;
        while k < 8
            invariant
                k <= 8,
                c == crc_rounds(i, k as nat),
            decreases 8 - k,
        {
            c = if c & 1 == 1 { 0xEDB88320u32 ^ (c >> 1) } else { c >> 1 };
            k = k + 1;
        }
        t.push(c);
        i = i + 1;
    }
    t
}

/// CRC32 of `data`, which is how ROMs are matched against the game database.
pub fn compute_crc32(data: &[u8]) -> (crc: u32)
    ensures
        crc == crc32_continued(0, data@),
{
    compute_combine_crc32(0, data)
}

/// Extends an existing CRC32 with more data, for hashing PRG and CHR as one.
pub fn compute_combine_crc32(crc32: u32, data: &[u8]) -> (crc: u32)
    ensures
        crc == crc32_continued(crc32, data@),
{
    let table = build_crc_table();
    let mut c: u32 = crc32 ^ 0xFFFF_FFFF;
    let mut i: usize = 0;
    while i < data.len()
        invariant
            i <= data@.len(),
            table@.len() == 256,
            forall|j: int| 0 <= j < 256 ==> #[trigger] table@[j] == crc_table(j as u32),
            c == crc_register(crc32 ^ 0xFFFF_FFFFu32, data@.take(i as int)),
        decreases data@.len() - i,
    {
        let b = data[i];
        let idx = (c ^ (b as u32)) & 0xFF;
        assert(idx < 256) by (bit_vector)
            requires
                idx == (c ^ (b as u32)) & 0xFF,
        ;
        c = (c >> 8) ^ table[idx as usize];
        proof {
            assert(data@.take(i + 1).drop_last() =~= data@.take(i as int));
        }
        i = i + 1;
    }
    proof {
        assert(data@.take(data@.len() as int) =~= data@);
    }
    c ^ 0xFFFF_FFFF
}

/// Taking in `a` then `b` leaves the CRC register where taking in `a + b` does.
proof fn lemma_crc_register_concat(c: u32, a: Seq<u8>, b: Seq<u8>)
    ensures
        crc_register(crc_register(c, a), b) == crc_register(c, a + b),
    decreases b.len(),
{
    if b.len() == 0 {
        assert(a + b =~= a);
    } else {
        lemma_crc_register_concat(c, a, b.drop_last());
        assert((a + b).drop_last() =~= a + b.drop_last());
    }
}

/// Continuing a CRC over more data is the CRC of all of it: the CRC of `a + b` is the CRC of
/// `b` continued from the CRC of `a`.
pub proof fn lemma_crc32_combines(crc: u32, a: Seq<u8>, b: Seq<u8>)
    ensures
        crc32_continued(crc32_continued(crc, a), b) == crc32_continued(crc, a + b),
{
    let r = crc_register(crc ^ 0xFFFF_FFFFu32, a);
    assert((r ^ 0xFFFF_FFFFu32) ^ 0xFFFF_FFFFu32 == r) by (bit_vector);
    lemma_crc_register_concat(crc ^ 0xFFFF_FFFFu32, a, b);
}

} // verus!
