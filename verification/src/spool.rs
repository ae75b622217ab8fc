//! Spilling a large response body to a file while it streams in: small
//! bodies stay in memory, and once the buffer has grown past a limit the rest
//! of the body goes to a file named after the url, which is read back at the
//! end.

use vstd::prelude::*;
use vstd::string::StringSliceAdditionalSpecFns;
use crate::body::{
    bytes_contents, bytes_mut_contents, bytes_mut_new, bytes_mut_put, bytes_mut_capacity,
    bytes_mut_clear, bytes_mut_as_slice, bytes_mut_freeze, bytes_from_vec,
};

verus! {

/// The upper-case hexadecimal digit of a value below sixteen.
pub open spec fn hex_digit(n: int) -> char {
    if n < 10 {
        (48 + n) as char
    } else {
        (55 + n) as char
    }
}

/// An ASCII letter or digit.
pub open spec fn is_ascii_alphanumeric(b: u8) -> bool {
    (48 <= b && b <= 57) || (65 <= b && b <= 90) || (97 <= b && b <= 122)
}

/// One byte percent-encoded against the set of everything that is not an
/// ASCII letter or digit: letters and digits stand for themselves, any other
/// byte becomes `%` and its two upper-case hexadecimal digits.
pub open spec fn encoded_byte(b: u8) -> Seq<char> {
    if is_ascii_alphanumeric(b) {
        seq![b as char]
    } else {
        seq!['%', hex_digit(b as int / 16), hex_digit(b as int % 16)]
    }
}

/// A byte string percent-encoded byte by byte.
pub open spec fn percent_encoded(bytes: Seq<u8>) -> Seq<char>
    decreases bytes.len(),
{
    if bytes.len() == 0 {
        Seq::empty()
    } else {
        encoded_byte(bytes[0]) + percent_encoded(bytes.drop_first())
    }
}

/// Calls `percent_encoding::utf8_percent_encode` with `NON_ALPHANUMERIC` and
/// renders the result with `to_string`: every byte of the UTF-8 encoding of
/// the input that is not an ASCII letter or digit is written as `%XX` with
/// upper-case hexadecimal digits, the others are kept.
#[verifier::external_body]
fn utf8_percent_encode_non_alphanumeric(input: &str) -> (r: String)
    ensures
        r@ == percent_encoded(input.spec_bytes()),
{
    percent_encoding::utf8_percent_encode(input, percent_encoding::NON_ALPHANUMERIC).to_string()
}

proof fn lemma_encoded_byte_shape(b: u8)
    ensures
        encoded_byte(b).len() >= 1,
        is_ascii_alphanumeric(b) ==> encoded_byte(b).len() == 1 && encoded_byte(b)[0] != '%'
            && encoded_byte(b)[0] as u32 == b as u32,
        !is_ascii_alphanumeric(b) ==> encoded_byte(b).len() == 3 && encoded_byte(b)[0] == '%',
{
}

proof fn lemma_encoded_byte_injective(a: u8, b: u8)
    requires
        encoded_byte(a) == encoded_byte(b),
    ensures
        a == b,
{
    lemma_encoded_byte_shape(a);
    lemma_encoded_byte_shape(b);
    if is_ascii_alphanumeric(a) {
        assert(encoded_byte(a)[0] == encoded_byte(b)[0]);
    } else {
        assert(encoded_byte(a)[1] == encoded_byte(b)[1]);
        assert(encoded_byte(a)[2] == encoded_byte(b)[2]);
        let ha: int = a as int / 16;
        let la: int = a as int % 16;
        let hb: int = b as int / 16;
        let lb: int = b as int % 16;
        assert(hex_digit(ha) as u32 == if ha < 10 { 48 + ha } else { 55 + ha });
        assert(hex_digit(hb) as u32 == if hb < 10 { 48 + hb } else { 55 + hb });
        assert(hex_digit(la) as u32 == if la < 10 { 48 + la } else { 55 + la });
        assert(hex_digit(lb) as u32 == if lb < 10 { 48 + lb } else { 55 + lb });
    }
}

/// Percent-encoding loses nothing: different byte strings encode
/// differently.
pub proof fn lemma_percent_encoded_injective(a: Seq<u8>, b: Seq<u8>)
    requires
        percent_encoded(a) == percent_encoded(b),
    ensures
        a == b,
    decreases a.len(),
{
    if a.len() == 0 {
        if b.len() > 0 {
            lemma_encoded_byte_shape(b[0]);
            assert(percent_encoded(b).len() >= 1);
        }
        assert(a =~= b);
    } else if b.len() == 0 {
        lemma_encoded_byte_shape(a[0]);
        assert(percent_encoded(a).len() >= 1);
    } else {
        let ea = encoded_byte(a[0]);
        let eb = encoded_byte(b[0]);
        let pa = percent_encoded(a);
        lemma_encoded_byte_shape(a[0]);
        lemma_encoded_byte_shape(b[0]);
        assert(pa[0] == ea[0]);
        assert(pa[0] == eb[0]);
        assert(is_ascii_alphanumeric(a[0]) == is_ascii_alphanumeric(b[0]));
        assert(ea.len() == eb.len());
        assert(ea =~= pa.subrange(0, ea.len() as int));
        assert(eb =~= pa.subrange(0, eb.len() as int));
        lemma_encoded_byte_injective(a[0], b[0]);
        assert(percent_encoded(a.drop_first()) =~= pa.subrange(ea.len() as int, pa.len() as int));
        assert(percent_encoded(b.drop_first()) =~= pa.subrange(eb.len() as int, pa.len() as int));
        lemma_percent_encoded_injective(a.drop_first(), b.drop_first());
        assert(a =~= seq![a[0]] + a.drop_first());
        assert(b =~= seq![b[0]] + b.drop_first());
    }
}

/// The file a body fetched from `target_url` spills to: the url,
/// percent-encoded, appended to the spill directory prefix.
pub open spec fn spill_path(tmp_dir: Seq<char>, target_url: &str) -> Seq<char> {
    tmp_dir + percent_encoded(target_url.spec_bytes())
}

/// The path of the spill file for `target_url` under the prefix `tmp_dir`.
pub fn spill_file_path(tmp_dir: &str, target_url: &str) -> (r: String)
    ensures
        r@ == spill_path(tmp_dir@, target_url),
{
    let encoded: String = utf8_percent_encode_non_alphanumeric(target_url);
    tmp_dir.to_owned().concat(encoded.as_str())
}

/// Different urls spill to different files under the same prefix.
pub proof fn lemma_spill_paths_distinct(tmp_dir: Seq<char>, a: &str, b: &str)
    requires
        a@ != b@,
    ensures
        spill_path(tmp_dir, a) != spill_path(tmp_dir, b),
{
    if spill_path(tmp_dir, a) == spill_path(tmp_dir, b) {
        let pa = percent_encoded(a.spec_bytes());
        let pb = percent_encoded(b.spec_bytes());
        assert(pa =~= spill_path(tmp_dir, a).subrange(tmp_dir.len() as int, spill_path(tmp_dir, a).len() as int));
        assert(pb =~= spill_path(tmp_dir, b).subrange(tmp_dir.len() as int, spill_path(tmp_dir, b).len() as int));
        lemma_percent_encoded_injective(a.spec_bytes(), b.spec_bytes());
        vstd::utf8::encode_utf8_decode_utf8(a@);
        vstd::utf8::encode_utf8_decode_utf8(b@);
    }
}

/// Below this buffer capacity a chunk is kept in memory.
pub const MEMORY_LIMIT: usize = 8192;

/// Where the next chunk of a streaming body goes.
pub enum ChunkRoute {
    /// Append it to the in-memory buffer.
    Memory,
    /// Create the spill file at `path`; when that succeeds, record it with
    /// `file_opened`, buffer the chunk and write the whole buffer to the file,
    /// recording a successful write with `flushed`; when creating the file
    /// fails, buffer the chunk.
    OpenFile { path: String },
    /// Write it to the spill file, recording a successful write with
    /// `appended`; when the write fails, buffer it.
    AppendFile,
}

/// The route of the next chunk.  Before spilling, a chunk stays in memory
/// while the buffer's capacity is below `MEMORY_LIMIT`, and otherwise the
/// spill file for `target_url` is to be created.  Once spilled, a chunk goes
/// to the file while nothing waits in memory; once something does (a write
/// to the file failed), every later chunk stays in memory behind it, so that
/// the body keeps its order.
pub fn route_for(spilled: bool, held: usize, capacity: usize, tmp_dir: &str, target_url: &str) -> (r: ChunkRoute)
    ensures
        spilled && held == 0 ==> r is AppendFile,
        spilled && held > 0 ==> r is Memory,
        !spilled && capacity < MEMORY_LIMIT ==> r is Memory,
        !spilled && capacity >= MEMORY_LIMIT ==> (r matches ChunkRoute::OpenFile { path }
            && path@ == spill_path(tmp_dir@, target_url)),
{
    if spilled {
        if held == 0 {
            ChunkRoute::AppendFile
        } else {
            ChunkRoute::Memory
        }
    } else if capacity < MEMORY_LIMIT {
        ChunkRoute::Memory
    } else {
        ChunkRoute::OpenFile { path: spill_file_path(tmp_dir, target_url) }
    }
}

/// A streaming body on its way to memory or to a spill file.  The bytes
/// handed to the spill file are recorded, so that the body is always what
/// went to the file followed by what is held in memory.
pub struct DiskSpool {
    data: bytes::BytesMut,
    file_path: String,
    on_disk: bool,
    written: Ghost<Seq<u8>>,
}

impl DiskSpool {
    /// The bytes held in memory.
    pub closed spec fn buffered(&self) -> Seq<u8> {
        bytes_mut_contents(self.data)
    }

    /// The bytes successfully written to the spill file.
    pub closed spec fn written(&self) -> Seq<u8> {
        self.written@
    }

    /// The body so far: once spilled, what went to the spill file followed
    /// by what is held in memory; before, what is held in memory.
    pub open spec fn body(&self) -> Seq<u8> {
        if self.spilled() {
            self.written() + self.buffered()
        } else {
            self.buffered()
        }
    }

    /// Whether a spill file has been created.
    pub closed spec fn spilled(&self) -> bool {
        self.on_disk
    }

    /// The path of the spill file (empty before one is created).
    pub closed spec fn path(&self) -> Seq<char> {
        self.file_path@
    }

    /// Nothing buffered, nothing written and no spill file.
    pub fn new() -> (r: DiskSpool)
        ensures
            r.buffered() == Seq::<u8>::empty(),
            r.written() == Seq::<u8>::empty(),
            !r.spilled(),
            r.path() == Seq::<char>::empty(),
    {
        DiskSpool {
            data: bytes_mut_new(),
            file_path: String::new(),
            on_disk: false,
            written: Ghost(Seq::empty()),
        }
    }

    /// Whether a spill file has been created.
    pub fn is_spilled(&self) -> (r: bool)
        ensures
            r == self.spilled(),
    {
        self.on_disk
    }

    /// The path of the spill file.
    pub fn file_path(&self) -> (r: &str)
        ensures
            r@ == self.path(),
    {
        self.file_path.as_str()
    }

    /// Where the next chunk goes: `route_for` with this spool's state and the
    /// buffer's capacity, which the allocator decides.
    pub fn route(&self, tmp_dir: &str, target_url: &str) -> (r: ChunkRoute)
        ensures
            self.spilled() && self.buffered().len() == 0 ==> r is AppendFile,
            self.spilled() && self.buffered().len() > 0 ==> r is Memory,
            !self.spilled() ==> (r is Memory || r is OpenFile),
            !self.spilled() && self.buffered().len() >= MEMORY_LIMIT ==> r is OpenFile,
            r matches ChunkRoute::OpenFile { path } ==> path@ == spill_path(tmp_dir@, target_url),
    {
        let held: usize = bytes_mut_as_slice(&self.data).len();
        let capacity: usize = bytes_mut_capacity(&self.data);
        route_for(self.on_disk, held, capacity, tmp_dir, target_url)
    }

    /// Appends a chunk to the in-memory buffer.
    pub fn buffer(&mut self, chunk: bytes::Bytes)
        ensures
            final(self).buffered() == old(self).buffered() + bytes_contents(chunk),
            final(self).written() == old(self).written(),
            final(self).body() == old(self).body() + bytes_contents(chunk),
            final(self).spilled() == old(self).spilled(),
            final(self).path() == old(self).path(),
    {
        bytes_mut_put(&mut self.data, chunk);
        assert(self.written@ + (old(self).buffered() + bytes_contents(chunk)) =~= old(self).written()
            + old(self).buffered() + bytes_contents(chunk));
    }

    /// Records that the spill file at `path` was created; nothing has been
    /// written to it yet.
    pub fn file_opened(&mut self, path: String)
        ensures
            final(self).spilled(),
            final(self).path() == path@,
            final(self).buffered() == old(self).buffered(),
            final(self).written() == Seq::<u8>::empty(),
            !old(self).spilled() ==> final(self).body() == old(self).body(),
    {
        self.on_disk = true;
        self.file_path = path;
        self.written = Ghost(Seq::empty());
        assert(Seq::<u8>::empty() + self.buffered() =~= self.buffered());
    }

    /// The buffered bytes, to be written to the spill file.
    pub fn pending(&self) -> (r: &[u8])
        ensures
            r@ == self.buffered(),
    {
        bytes_mut_as_slice(&self.data)
    }

    /// Records that the buffered bytes were written to the spill file; before
    /// a spill file exists this does nothing.
    pub fn flushed(&mut self)
        ensures
            old(self).spilled() ==> final(self).written() == old(self).written() + old(self).buffered(),
            old(self).spilled() ==> final(self).buffered() == Seq::<u8>::empty(),
            !old(self).spilled() ==> final(self).written() == old(self).written()
                && final(self).buffered() == old(self).buffered(),
            final(self).body() == old(self).body(),
            final(self).spilled() == old(self).spilled(),
            final(self).path() == old(self).path(),
    {
        if self.on_disk {
            let ghost before: Seq<u8> = self.written@ + bytes_mut_contents(self.data);
            proof {
                self.written@ = before;
            }
            bytes_mut_clear(&mut self.data);
            assert(self.written@ + bytes_mut_contents(self.data) =~= before);
        }
    }

    /// Records that `chunk` was written to the spill file; before a spill
    /// file exists this does nothing.  When nothing is held in memory (as
    /// `route` asks), the body grows by the chunk.
    pub fn appended(&mut self, chunk: &bytes::Bytes)
        ensures
            old(self).spilled() ==> final(self).written() == old(self).written() + bytes_contents(*chunk),
            !old(self).spilled() ==> final(self).written() == old(self).written(),
            final(self).buffered() == old(self).buffered(),
            old(self).spilled() && old(self).buffered().len() == 0 ==> final(self).body()
                == old(self).body() + bytes_contents(*chunk),
            final(self).spilled() == old(self).spilled(),
            final(self).path() == old(self).path(),
    {
        proof {
            if self.on_disk {
                self.written@ = self.written@ + bytes_contents(*chunk);
            }
        }
        assert(old(self).spilled() && old(self).buffered().len() == 0 ==> old(self).body()
            =~= old(self).written());
        assert(old(self).spilled() && old(self).buffered().len() == 0 ==> final(self).body()
            =~= final(self).written());
    }

    /// The body: what was read back from the spill file followed by what is
    /// held in memory when a spill file was created, otherwise what is held
    /// in memory.  When the file gives back what was written to it, this is
    /// the whole body.
    pub fn finish(self, read_back: Vec<u8>) -> (r: bytes::Bytes)
        ensures
            self.spilled() ==> bytes_contents(r) == read_back@ + self.buffered(),
            !self.spilled() ==> bytes_contents(r) == self.buffered(),
            !self.spilled() || read_back@ == self.written() ==> bytes_contents(r) == self.body(),
    {
        if self.on_disk {
            let mut all: Vec<u8> = read_back;
            let mut rest: Vec<u8> = vstd::slice::slice_to_vec(bytes_mut_as_slice(&self.data));
            all.append(&mut rest);
            bytes_from_vec(all)
        } else {
            bytes_mut_freeze(self.data)
        }
    }
}

} // verus!
