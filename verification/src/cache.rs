//! Where a video is kept on disk, and when it is fetched anew.

use vstd::prelude::*;
use vstd::utf8::*;

use crate::extension::{
    extension_of, law_extension_is_plain, law_extension_read_back, url_extension,
};
use crate::text::{
    digit_value, hex_text, is_lower_hex, last_position, law_hex_text_reads_back,
    lemma_hex_text_digits, lemma_hex_text_injective, lemma_last_position_unique, to_hex,
};

use sha2::{Digest, Sha256};

verus! {

/// The directory that holds the cached videos.
pub const CACHE_DIR: &'static str = "cache";

/// Hexadecimal digits of a URL's digest that name its file.
pub const HASH_LENGTH: usize = 16;

/// Bytes of a URL's digest that those digits write.
pub const HASH_BYTES: usize = 8;

/// The SHA-256 digest of some bytes.
pub uninterp spec fn sha256_digest(data: Seq<u8>) -> Seq<u8>;

/// Calls `sha2::Sha256`: `new`, `update` with all of `data`, `finalize`.
///
/// Claimed: the result is a function of the bytes, and thirty-two bytes long.
#[verifier::external_body]
fn sha256(data: &[u8]) -> (r: Vec<u8>)
    ensures
        r@ == sha256_digest(data@),
        r@.len() == 32,
{
    let mut hasher = Sha256::new();
    hasher.update(data);
    hasher.finalize().to_vec()
}

/// The first bytes of a digest as text.
pub open spec fn short_hash_of(digest: Seq<u8>) -> Seq<char> {
    hex_text(digest.take(HASH_BYTES as int))
}

/// The short hash of a URL: the front of the digest of its bytes.
pub open spec fn url_hash_of(url: Seq<char>) -> Seq<char> {
    short_hash_of(sha256_digest(encode_utf8(url)))
}

/// The path of a cached video with the given hash and extension.
pub open spec fn cache_path_of(hash: Seq<char>, extension: Seq<char>) -> Seq<char> {
    CACHE_DIR@ + seq!['/'] + hash + seq!['.'] + extension
}

/// The first sixteen hexadecimal digits of a digest.
pub fn short_hash(digest: &[u8]) -> (r: String)
    requires
        digest@.len() >= HASH_BYTES,
    ensures
        r@ == short_hash_of(digest@),
        r@ == hex_text(digest@).take(HASH_LENGTH as int),
{
    let text = to_hex(digest);
    proof {
        lemma_hex_text_digits(digest@);
        assert forall|i: int| 0 <= i < text@.len() implies text@[i] as nat <= 127 by {
            assert(is_lower_hex(hex_text(digest@)[i]));
        }
        assert(text.is_ascii());
        assert(text@.subrange(0, HASH_LENGTH as int) =~= text@.take(HASH_LENGTH as int));
        assert(text@.take(HASH_LENGTH as int) =~= short_hash_of(digest@));
    }
    text.as_str().substring_ascii(0, HASH_LENGTH).to_string()
}

/// The short hash under which the video of a URL is cached: the sixteen
/// lower-case hexadecimal digits of the first eight bytes of its digest.
pub fn get_url_hash(url: &str) -> (r: String)
    ensures
        r@ == url_hash_of(url@),
        r@ == hex_text(sha256_digest(encode_utf8(url@))).take(HASH_LENGTH as int),
        sha256_digest(encode_utf8(url@)).len() == 32,
        r@.len() == HASH_LENGTH,
        forall|i: int| 0 <= i < HASH_LENGTH ==> is_lower_hex(#[trigger] r@[i]),
{
    let digest = sha256(url.as_bytes());
    proof {
        law_short_hash_shape(digest@);
    }
    short_hash(digest.as_slice())
}

/// The path of a cached video with the given hash, for the URL that it came
/// from.
pub fn cache_path(hash: &str, url: &str) -> (r: String)
    ensures
        r@ == cache_path_of(hash@, extension_of(url@)),
        r@ == "cache/"@ + hash@ + "."@ + extension_of(url@),
{
    let extension = url_extension(url);
    let mut path = CACHE_DIR.to_string();
    proof {
        law_cache_path_parts(hash@, extension_of(url@));
        reveal_strlit("/");
        reveal_strlit(".");
        assert("/"@ =~= seq!['/']);
        assert("."@ =~= seq!['.']);
    }
    path.append("/");
    path.append(hash);
    path.append(".");
    path.append(extension.as_str());
    path
}

/// The path at which the video of a URL is cached.
pub fn cache_file_path(url: &str) -> (r: String)
    ensures
        r@ == cache_path_of(url_hash_of(url@), extension_of(url@)),
        r@ == "cache/"@ + hex_text(sha256_digest(encode_utf8(url@))).take(HASH_LENGTH as int)
            + "."@ + extension_of(url@),
        sha256_digest(encode_utf8(url@)).len() == 32,
        r@.take(CACHE_DIR@.len() as int) == CACHE_DIR@,
        forall|i: int| 0 <= i < r@.len() ==> (#[trigger] r@[i] == '/' <==> i == CACHE_DIR@.len()),
{
    proof {
        law_cached_file_lies_in_directory(url@);
        law_cache_path_parts(url_hash_of(url@), extension_of(url@));
    }
    let hash = get_url_hash(url);
    cache_path(hash.as_str(), url)
}

/// The size of the remote file of a cached video, as far as it can be learnt.
#[derive(Clone, Copy, Debug, PartialEq, Eq, Structural)]
pub enum RemoteSize {
    /// The server reports a size.
    Known(u64),
    /// The server answers without a usable size.
    Unknown,
    /// The server could not be asked.
    Failed,
}

/// What is to be done next to have a video on disk.
#[derive(Clone, Copy, Debug, PartialEq, Eq, Structural)]
pub enum FetchStep {
    /// Create the cache directory.
    CreateDir,
    /// See whether the cached file exists.
    CheckExists,
    /// Read the size of the cached file.
    ReadLocalSize,
    /// Ask the server for the size of the remote file.
    QueryRemoteSize { local_size: u64 },
    /// Remove the cached file.
    Remove,
    /// Download the video to the cached file.
    Download,
    /// The video is on disk: the cached file is used as it is.
    UseCached,
    /// The video is on disk: it was downloaded.
    Downloaded,
    /// The latest piece of work failed, and its error is the outcome.
    Failed,
}

/// What came of a step.
#[derive(Clone, Copy, Debug, PartialEq, Eq, Structural)]
pub enum FetchEvent {
    /// Whether the cache directory is there.
    DirCreated(bool),
    /// Whether the cached file exists.
    Existence(bool),
    /// The size of the cached file, where it could be read.
    LocalSize(Option<u64>),
    /// What was learnt of the size of the remote file.
    RemoteAnswer(RemoteSize),
    /// Whether the cached file could be removed.
    Removed(bool),
    /// Whether the download succeeded.
    DownloadEnded(bool),
}

impl FetchStep {
    /// Whether nothing is left to be done.
    pub open spec fn settled(self) -> bool {
        self is UseCached || self is Downloaded || self is Failed
    }

    /// Whether `event` reports on this step.
    pub open spec fn expects(self, event: FetchEvent) -> bool {
        match self {
            FetchStep::CreateDir => event is DirCreated,
            FetchStep::CheckExists => event is Existence,
            FetchStep::ReadLocalSize => event is LocalSize,
            FetchStep::QueryRemoteSize { .. } => event is RemoteAnswer,
            FetchStep::Remove => event is Removed,
            FetchStep::Download => event is DownloadEnded,
            _ => false,
        }
    }

    /// The step that follows `event`.
    pub open spec fn after(self, event: FetchEvent) -> FetchStep {
        match (self, event) {
            (FetchStep::CreateDir, FetchEvent::DirCreated(true)) => FetchStep::CheckExists,
            (FetchStep::CheckExists, FetchEvent::Existence(true)) => FetchStep::ReadLocalSize,
            (FetchStep::CheckExists, FetchEvent::Existence(false)) => FetchStep::Download,
            (
                FetchStep::ReadLocalSize,
                FetchEvent::LocalSize(Some(local_size)),
            ) => FetchStep::QueryRemoteSize { local_size },
            (FetchStep::QueryRemoteSize { local_size }, FetchEvent::RemoteAnswer(answer)) => {
                if answer is Known && answer->0 != local_size {
                    FetchStep::Remove
                } else {
                    FetchStep::UseCached
                }
            },
            (FetchStep::Remove, FetchEvent::Removed(true)) => FetchStep::Download,
            (FetchStep::Download, FetchEvent::DownloadEnded(true)) => FetchStep::Downloaded,
            _ => FetchStep::Failed,
        }
    }

    /// Whether `event` reports on this step.
    pub fn admits(&self, event: FetchEvent) -> (r: bool)
        ensures
            r == self.expects(event),
    {
        match (self, event) {
            (FetchStep::CreateDir, FetchEvent::DirCreated(_)) => true,
            (FetchStep::CheckExists, FetchEvent::Existence(_)) => true,
            (FetchStep::ReadLocalSize, FetchEvent::LocalSize(_)) => true,
            (FetchStep::QueryRemoteSize { .. }, FetchEvent::RemoteAnswer(_)) => true,
            (FetchStep::Remove, FetchEvent::Removed(_)) => true,
            (FetchStep::Download, FetchEvent::DownloadEnded(_)) => true,
            _ => false,
        }
    }

    /// Decides what to do after `event`.
    pub fn next(self, event: FetchEvent) -> (r: FetchStep)
        requires
            self.expects(event),
        ensures
            r == self.after(event),
    {
        match (self, event) {
            (FetchStep::CreateDir, FetchEvent::DirCreated(ok)) => {
                if ok {
                    FetchStep::CheckExists
                } else {
                    FetchStep::Failed
                }
            },
            (FetchStep::CheckExists, FetchEvent::Existence(exists)) => {
                if exists {
                    FetchStep::ReadLocalSize
                } else {
                    FetchStep::Download
                }
            },
            (FetchStep::ReadLocalSize, FetchEvent::LocalSize(size)) => {
                match size {
                    Some(local_size) => FetchStep::QueryRemoteSize { local_size },
                    None => FetchStep::Failed,
                }
            },
            (FetchStep::QueryRemoteSize { local_size }, FetchEvent::RemoteAnswer(answer)) => {
                match answer {
                    RemoteSize::Known(remote_size) => {
                        if local_size == remote_size {
                            FetchStep::UseCached
                        } else {
                            FetchStep::Remove
                        }
                    },
                    RemoteSize::Unknown => FetchStep::UseCached,
                    RemoteSize::Failed => FetchStep::UseCached,
                }
            },
            (FetchStep::Remove, FetchEvent::Removed(ok)) => {
                if ok {
                    FetchStep::Download
                } else {
                    FetchStep::Failed
                }
            },
            (FetchStep::Download, FetchEvent::DownloadEnded(ok)) => {
                if ok {
                    FetchStep::Downloaded
                } else {
                    FetchStep::Failed
                }
            },
            _ => FetchStep::Failed,
        }
    }
}

/// The disk and the network as one fetch finds them.
pub struct World {
    /// Whether the cache directory can be had.
    pub dir: bool,
    /// Whether the cached file exists.
    pub exists: bool,
    /// The size of the cached file, where it can be read.
    pub local_size: Option<u64>,
    /// What the server says of the size of the remote file.
    pub remote_size: RemoteSize,
    /// Whether the cached file can be removed.
    pub removable: bool,
    /// Whether the video can be downloaded.
    pub downloadable: bool,
}

impl World {
    /// What comes of a step.
    pub open spec fn answer(self, step: FetchStep) -> FetchEvent {
        match step {
            FetchStep::CreateDir => FetchEvent::DirCreated(self.dir),
            FetchStep::CheckExists => FetchEvent::Existence(self.exists),
            FetchStep::ReadLocalSize => FetchEvent::LocalSize(self.local_size),
            FetchStep::QueryRemoteSize { .. } => FetchEvent::RemoteAnswer(self.remote_size),
            FetchStep::Remove => FetchEvent::Removed(self.removable),
            _ => FetchEvent::DownloadEnded(self.downloadable),
        }
    }

    /// Whether the cached file is known to differ from the remote file: both sizes
    /// are known and not equal.
    pub open spec fn outdated(self) -> bool {
        self.local_size is Some && self.remote_size is Known && self.local_size->0
            != self.remote_size->Known_0
    }

    /// The outcome of a fetch.
    pub open spec fn outcome(self) -> FetchStep {
        if !self.dir {
            FetchStep::Failed
        } else if !self.exists {
            if self.downloadable {
                FetchStep::Downloaded
            } else {
                FetchStep::Failed
            }
        } else if self.local_size is None {
            FetchStep::Failed
        } else if !self.outdated() {
            FetchStep::UseCached
        } else if self.removable && self.downloadable {
            FetchStep::Downloaded
        } else {
            FetchStep::Failed
        }
    }
}

/// Steps that are left at most, the given one among them.
pub open spec fn steps_left(step: FetchStep) -> nat {
    match step {
        FetchStep::CreateDir => 6,
        FetchStep::CheckExists => 5,
        FetchStep::ReadLocalSize => 4,
        FetchStep::QueryRemoteSize { .. } => 3,
        FetchStep::Remove => 2,
        FetchStep::Download => 1,
        _ => 0,
    }
}

/// The steps of a fetch from `step` on, each answered by `world`.
pub open spec fn steps_from(world: World, step: FetchStep) -> Seq<FetchStep>
    decreases steps_left(step),
{
    if step.settled() {
        seq![step]
    } else {
        seq![step] + steps_from(world, step.after(world.answer(step)))
    }
}

/// Every answer brings a fetch nearer to its end, so it takes six answers at
/// most.
pub proof fn law_fetch_ends(step: FetchStep, event: FetchEvent)
    requires
        step.expects(event),
    ensures
        steps_left(step.after(event)) < steps_left(step) <= 6,
        steps_left(step) == 0 <==> step.settled(),
{
}

/// A fetch ends in the outcome that the disk and the network leave open: a
/// cached file is used unless it is known to be outdated, and a video is
/// downloaded exactly where there is no cached file or an outdated one.
pub proof fn law_fetch_outcome(world: World)
    ensures
        steps_from(world, FetchStep::CreateDir).last() == world.outcome(),
        steps_from(world, FetchStep::CreateDir).contains(FetchStep::Download) <==> {
            &&& world.dir
            &&& !world.exists || (world.outdated() && world.removable)
        },
        steps_from(world, FetchStep::CreateDir).contains(FetchStep::Remove) <==> {
            &&& world.dir
            &&& world.exists
            &&& world.outdated()
        },
{
    reveal_with_fuel(steps_from, 7);
    let steps = steps_from(world, FetchStep::CreateDir);
    if !world.dir {
        assert(steps =~= seq![FetchStep::CreateDir, FetchStep::Failed]);
    } else if !world.exists {
        assert(steps =~= seq![
            FetchStep::CreateDir,
            FetchStep::CheckExists,
            FetchStep::Download,
            world.outcome(),
        ]);
        assert(steps[2] == FetchStep::Download);
    } else if world.local_size is None {
        assert(steps =~= seq![
            FetchStep::CreateDir,
            FetchStep::CheckExists,
            FetchStep::ReadLocalSize,
            FetchStep::Failed,
        ]);
    } else {
        let query = FetchStep::QueryRemoteSize { local_size: world.local_size->0 };
        let front = seq![
            FetchStep::CreateDir,
            FetchStep::CheckExists,
            FetchStep::ReadLocalSize,
            query,
        ];
        if !world.outdated() {
            assert(steps =~= front.push(FetchStep::UseCached));
        } else if !world.removable {
            assert(steps =~= front.push(FetchStep::Remove).push(FetchStep::Failed));
            assert(steps[4] == FetchStep::Remove);
        } else {
            assert(steps =~= front.push(FetchStep::Remove).push(FetchStep::Download).push(
                world.outcome(),
            ));
            assert(steps[4] == FetchStep::Remove);
            assert(steps[5] == FetchStep::Download);
        }
    }
}

/// A cached file that the server does not contradict is used without a
/// download, so a second fetch of an unchanged video downloads nothing.
pub proof fn law_unchanged_video_is_reused(world: World)
    requires
        world.dir,
        world.exists,
        world.local_size is Some,
        !world.outdated(),
    ensures
        steps_from(world, FetchStep::CreateDir).last() == FetchStep::UseCached,
        !steps_from(world, FetchStep::CreateDir).contains(FetchStep::Download),
        !steps_from(world, FetchStep::CreateDir).contains(FetchStep::Remove),
{
    law_fetch_outcome(world);
}

/// The short hash of a digest holds lower-case hexadecimal digits only, sixteen
/// of them where the digest has the bytes for it.
pub proof fn law_short_hash_shape(digest: Seq<u8>)
    ensures
        forall|i: int|
            0 <= i < short_hash_of(digest).len() ==> is_lower_hex(
                #[trigger] short_hash_of(digest)[i],
            ),
        digest.len() >= HASH_BYTES ==> short_hash_of(digest).len() == HASH_LENGTH,
{
    lemma_hex_text_digits(digest.take(HASH_BYTES as int));
}

/// Two URLs have the same hash exactly if the first eight bytes of their
/// digests are the same.
pub proof fn law_url_hashes_agree(a: Seq<char>, b: Seq<char>)
    ensures
        url_hash_of(a) == url_hash_of(b) <==> sha256_digest(encode_utf8(a)).take(HASH_BYTES as int)
            == sha256_digest(encode_utf8(b)).take(HASH_BYTES as int),
{
    let front_a = sha256_digest(encode_utf8(a)).take(HASH_BYTES as int);
    let front_b = sha256_digest(encode_utf8(b)).take(HASH_BYTES as int);
    if url_hash_of(a) == url_hash_of(b) {
        lemma_hex_text_injective(front_a, front_b);
    }
}

/// The directory that holds a cached video is the cache directory, whatever the
/// URL holds: the only slash of the path is the one after that directory.
pub proof fn law_cached_file_lies_in_directory(url: Seq<char>)
    ensures
        ({
            let path = cache_path_of(url_hash_of(url), extension_of(url));
            &&& last_position(path, '/') == CACHE_DIR@.len()
            &&& path.take(last_position(path, '/')) == CACHE_DIR@
            &&& forall|i: int|
                0 <= i < path.len() ==> (#[trigger] path[i] == '/' <==> i == CACHE_DIR@.len())
        }),
{
    let hash = url_hash_of(url);
    let extension = extension_of(url);
    let path = cache_path_of(hash, extension);
    let n = CACHE_DIR@.len() as int;
    law_short_hash_shape(sha256_digest(encode_utf8(url)));
    law_extension_is_plain(url);
    reveal_strlit("cache");
    assert forall|i: int| 0 <= i < path.len() implies (#[trigger] path[i] == '/' <==> i == n) by {
        if n < i <= n + hash.len() {
            assert(path[i] == hash[i - n - 1]);
        } else if i > n + 1 + hash.len() {
            let k = i - n - hash.len() - 2;
            assert(path[i] == extension[k]);
            assert(extension.contains(extension[k]));
        }
    }
    assert(path[n] == '/');
    lemma_last_position_unique(path, '/', n);
    assert(path.take(n) =~= CACHE_DIR@);
}

/// The digits of a URL's hash are those of the first eight bytes of its digest,
/// the more valuable digit of each byte first.
pub proof fn law_url_hash_reads_back(url: Seq<char>, i: int)
    requires
        sha256_digest(encode_utf8(url)).len() == 32,
        0 <= i < 8,
    ensures
        url_hash_of(url).len() == 16,
        sha256_digest(encode_utf8(url))[i] == 16 * digit_value(url_hash_of(url)[2 * i])
            + digit_value(url_hash_of(url)[2 * i + 1]),
{
    let front = sha256_digest(encode_utf8(url)).take(8);
    law_hex_text_reads_back(front, i);
}

/// The path of a cached video is the directory, a slash, the hash, a dot and the
/// extension.
pub proof fn law_cache_path_parts(hash: Seq<char>, extension: Seq<char>)
    ensures
        cache_path_of(hash, extension) == "cache/"@ + hash + "."@ + extension,
{
    reveal_strlit("cache");
    reveal_strlit("cache/");
    reveal_strlit(".");
    assert("cache/"@ =~= "cache"@ + seq!['/']);
    assert("."@ =~= seq!['.']);
}

/// A cached video has the extension of the URL that it came from.
pub proof fn law_cached_file_keeps_extension(hash: Seq<char>, url: Seq<char>)
    requires
        hash.len() > 0,
        hash != seq!['.'] || extension_of(url).len() > 0,
        !hash.contains('/'),
    ensures
        extension_of(cache_path_of(hash, extension_of(url))) == extension_of(url),
{
    let extension = extension_of(url);
    law_extension_is_plain(url);
    if hash + seq!['.'] + extension == seq!['.', '.'] {
        let name = hash + seq!['.'] + extension;
        assert(name.len() == hash.len() + 1 + extension.len());
        assert(name.len() == 2);
        assert(hash[0] == name[0]);
        assert(hash =~= seq!['.']);
    }
    law_extension_read_back(CACHE_DIR@, hash, extension);
}

/// Videos with different hashes or different extensions have different paths.
pub proof fn law_cache_paths_differ(
    hash: Seq<char>,
    extension: Seq<char>,
    other_hash: Seq<char>,
    other_extension: Seq<char>,
)
    requires
        hash.len() == other_hash.len(),
        cache_path_of(hash, extension) == cache_path_of(other_hash, other_extension),
    ensures
        hash == other_hash,
        extension == other_extension,
{
    let path = cache_path_of(hash, extension);
    let from = CACHE_DIR@.len() as int + 1;
    let to = from + hash.len();
    assert(hash =~= path.subrange(from, to));
    assert(other_hash =~= path.subrange(from, to));
    assert(extension =~= path.skip(to + 1));
    assert(other_extension =~= path.skip(to + 1));
}

/// A cached file is kept exactly if the server reports the very size that it
/// has, or none; it is removed for any other size, however near.
pub proof fn law_sizes_decide(local_size: u64, remote_size: u64)
    ensures
        ({
            let query = FetchStep::ReadLocalSize.after(FetchEvent::LocalSize(Some(local_size)));
            let known = FetchEvent::RemoteAnswer(RemoteSize::Known(remote_size));
            &&& query.expects(known)
            &&& query.after(known) is UseCached <==> local_size == remote_size
            &&& query.after(known) is Remove <==> local_size != remote_size
            &&& query.after(FetchEvent::RemoteAnswer(RemoteSize::Unknown)) is UseCached
            &&& query.after(FetchEvent::RemoteAnswer(RemoteSize::Failed)) is UseCached
        }),
{
}

/// The order of the work: the directory comes first, then the look at the file;
/// what fails ends the fetch, and what is removed is downloaded.
pub proof fn law_fetch_order()
    ensures
        FetchStep::CreateDir.after(FetchEvent::DirCreated(true)) is CheckExists,
        FetchStep::CreateDir.after(FetchEvent::DirCreated(false)) is Failed,
        FetchStep::CheckExists.after(FetchEvent::Existence(true)) is ReadLocalSize,
        FetchStep::CheckExists.after(FetchEvent::Existence(false)) is Download,
        FetchStep::ReadLocalSize.after(FetchEvent::LocalSize(None)) is Failed,
        FetchStep::Remove.after(FetchEvent::Removed(true)) is Download,
        FetchStep::Remove.after(FetchEvent::Removed(false)) is Failed,
        FetchStep::Download.after(FetchEvent::DownloadEnded(true)) is Downloaded,
        FetchStep::Download.after(FetchEvent::DownloadEnded(false)) is Failed,
{
}

/// A step takes the report on its own work and no other.
pub proof fn law_steps_take_their_reports(step: FetchStep, event: FetchEvent)
    ensures
        step.expects(event) <==> {
            ||| step is CreateDir && event is DirCreated
            ||| step is CheckExists && event is Existence
            ||| step is ReadLocalSize && event is LocalSize
            ||| step is QueryRemoteSize && event is RemoteAnswer
            ||| step is Remove && event is Removed
            ||| step is Download && event is DownloadEnded
        },
{
}

} // verus!
