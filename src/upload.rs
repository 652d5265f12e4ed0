use vstd::prelude::*;
use vstd::string::StringSliceAdditionalSpecFns;

verus! {

/// The MIME type that mime_guess takes first for the extension of `key`,
/// as text; `None` where the extension is missing or unknown.
pub uninterp spec fn mime_guess_of(key: Seq<char>) -> Option<Seq<char>>;

/// Relies on `mime_guess::from_path(key).first()`, rendered with `to_string`.
#[verifier::external_body]
fn guess_mime(key: &str) -> (r: Option<String>)
    ensures
        r is Some <==> mime_guess_of(key@) is Some,
        r matches Some(m) ==> m@ == mime_guess_of(key@)->Some_0,
{
    mime_guess::from_path(key).first().map(|m| m.to_string())
}

/// The bytes end in `mp3`.
pub open spec fn ends_with_mp3(b: Seq<u8>) -> bool {
    b.len() >= 3 && b[b.len() - 3] == 0x6d && b[b.len() - 2] == 0x70 && b[b.len() - 1] == 0x33
}

/// The content type of an object whose key has the bytes `key`, given what
/// sniffing its extension found: that, else MPEG audio for a key ending in
/// `mp3`, else a generic byte stream.
pub open spec fn content_type_for(key: Seq<u8>, guessed: Option<Seq<char>>) -> Seq<char> {
    match guessed {
        Some(m) => m,
        None => if ends_with_mp3(key) {
            "audio/mpeg"@
        } else {
            "application/octet-stream"@
        },
    }
}

/// The content type of `key` given the type that sniffing its extension found.
pub fn content_type_from_guess(key: &str, guessed: Option<String>) -> (r: String)
    ensures
        r@ == content_type_for(key.spec_bytes(), match guessed {
            Some(m) => Some(m@),
            None => None,
        }),
{
    match guessed {
        Some(m) => m,
        None => {
            let b = key.as_bytes();
            let n = b.len();
            if n >= 3 && b[n - 3] == 0x6d && b[n - 2] == 0x70 && b[n - 1] == 0x33 {
                String::from_str("audio/mpeg")
            } else {
                String::from_str("application/octet-stream")
            }
        },
    }
}

/// The content type under which the object `key` is stored.
pub fn resolve_content_type(key: &str) -> (r: String)
    ensures
        r@ == content_type_for(key.spec_bytes(), mime_guess_of(key@)),
{
    let guessed = guess_mime(key);
    content_type_from_guess(key, guessed)
}

/// Where sniffing finds nothing, a key ending in `mp3` is stored as MPEG
/// audio and any other key as a generic byte stream.
pub proof fn lemma_content_type_fallbacks(key: Seq<u8>)
    ensures
        ends_with_mp3(key) ==> content_type_for(key, None) == "audio/mpeg"@,
        !ends_with_mp3(key) ==> content_type_for(key, None) == "application/octet-stream"@,
{
}

/// The public URL of an object: `https://{bucket}.{endpoint}/{key}`.
pub open spec fn public_url_of(bucket: Seq<char>, endpoint: Seq<char>, key: Seq<char>) -> Seq<char> {
    "https://"@ + bucket + "."@ + endpoint + "/"@ + key
}

/// The public URL of the object `key` in `bucket` at `endpoint`.
pub fn public_url(bucket: &str, endpoint: &str, key: &str) -> (r: String)
    ensures
        r@ == public_url_of(bucket@, endpoint@, key@),
{
    let mut url = String::from_str("https://");
    url.append(bucket);
    url.append(".");
    url.append(endpoint);
    url.append("/");
    url.append(key);
    url
}

/// The key of an episode's audio: `{prefix}/artifacts/{name}.mp3`.
pub fn artifact_key(prefix: &str, publish_name: &str) -> (r: String)
    ensures
        r@ == prefix@ + "/artifacts/"@ + publish_name@ + ".mp3"@,
{
    let mut key = String::from_str(prefix);
    key.append("/artifacts/");
    key.append(publish_name);
    key.append(".mp3");
    key
}

/// The key of a channel's feed: `{prefix}/podcast.xml`.
pub fn feed_key(prefix: &str) -> (r: String)
    ensures
        r@ == prefix@ + "/podcast.xml"@,
{
    let mut key = String::from_str(prefix);
    key.append("/podcast.xml");
    key
}

/// A put request for the object store: the whole body of `size` bytes,
/// readable by anyone.
#[derive(Debug, Clone)]
pub struct UploadRequest {
    pub bucket: String,
    pub key: String,
    pub acl: String,
    pub content_type: String,
    pub size: u64,
}

/// The put request for `size` bytes under `key` in `bucket`.
pub fn prepare_upload(bucket: &str, key: &str, size: u64) -> (r: UploadRequest)
    ensures
        r.bucket@ == bucket@,
        r.key@ == key@,
        r.acl@ == "public-read"@,
        r.content_type@ == content_type_for(key.spec_bytes(), mime_guess_of(key@)),
        r.size == size,
{
    UploadRequest {
        bucket: String::from_str(bucket),
        key: String::from_str(key),
        acl: String::from_str("public-read"),
        content_type: resolve_content_type(key),
        size,
    }
}

/// The sum of a sequence of chunk sizes.
pub open spec fn total_of(chunks: Seq<u64>) -> int
    decreases chunks.len(),
{
    if chunks.len() == 0 {
        0
    } else {
        total_of(chunks.drop_last()) + chunks.last()
    }
}

/// The bytes of an upload counted as its chunks are read.
pub struct UploadProgress {
    pub size: u64,
    pub transferred: u64,
    pub chunks: Ghost<Seq<u64>>,
}

impl UploadProgress {
    /// The count is the sum of the chunks read, and within the declared size.
    pub open spec fn wf(&self) -> bool {
        self.transferred as int == total_of(self.chunks@) && self.transferred <= self.size
    }

    /// No bytes read yet out of `size`.
    pub fn new(size: u64) -> (r: Self)
        ensures
            r.wf(),
            r.size == size,
            r.transferred == 0,
            r.chunks@ == Seq::<u64>::empty(),
    {
        UploadProgress { size, transferred: 0, chunks: Ghost(Seq::empty()) }
    }

    /// Counts a chunk of `amount` bytes; returns the bytes read so far, or
    /// `None`, leaving the count as it was, where the chunk would pass the
    /// declared size.
    pub fn advance(&mut self, amount: u64) -> (r: Option<u64>)
        requires
            old(self).wf(),
        ensures
            final(self).wf(),
            final(self).size == old(self).size,
            old(self).transferred + amount <= old(self).size ==> r == Some(final(self).transferred)
                && final(self).chunks@ == old(self).chunks@.push(amount)
                && final(self).transferred == old(self).transferred + amount,
            old(self).transferred + amount > old(self).size ==> r is None && *final(self)
                == *old(self),
    {
        if amount <= self.size - self.transferred {
            self.transferred = self.transferred + amount;
            self.chunks = Ghost(self.chunks@.push(amount));
            assert(self.chunks@.drop_last() =~= old(self).chunks@);
            Some(self.transferred)
        } else {
            None
        }
    }

    /// Every declared byte has been read.
    pub fn is_complete(&self) -> (r: bool)
        ensures
            r == (self.transferred == self.size),
    {
        self.transferred == self.size
    }
}

/// The count reported after each chunk is the sum of the chunks read so far;
/// so on a complete upload the chunks sum to exactly the declared size.
pub proof fn lemma_progress_sums_to_size(p: UploadProgress)
    requires
        p.wf(),
        p.transferred == p.size,
    ensures
        total_of(p.chunks@) == p.size as int,
{
}

} // verus!
