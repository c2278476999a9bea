//! The file-system adapter: where the engine's file names lie on the host,
//! and which files a directory query finds.

use crate::error::{Disposition, ShimError};
use vstd::prelude::*;
use vstd::slice::*;
use vstd::string::*;

verus! {

/// The file that is looked for under a root directory to tell whether the
/// directory holds the game's data.
pub const SANITY_MARKER: &'static str = "Data/Scripts/SkirmishScripts.scb";

/// `path` adjoined to the directory `base`. An absolute `path` stands for
/// itself; any other is put behind `base`, with one separator between them
/// unless `base` is empty or ends in one.
pub open spec fn spec_join(base: Seq<char>, path: Seq<char>) -> Seq<char> {
    if path.len() > 0 && path[0] == '/' {
        path
    } else if base.len() == 0 || base.last() == '/' {
        base + path
    } else {
        base + seq!['/'] + path
    }
}

/// The glob pattern of a directory query: `name` below `root`, or below any
/// directory under `root` when the query recurses.
pub open spec fn spec_search_pattern(root: Seq<char>, name: Seq<char>, recurse: bool) -> Seq<
    char,
> {
    if recurse {
        spec_join(spec_join(root, seq!['*', '*']), name)
    } else {
        spec_join(root, name)
    }
}

/// The paths among the entries of a directory walk: an entry that could not
/// be read has none. They keep the order of the walk.
pub open spec fn found_paths(found: Seq<Option<Vec<u8>>>) -> Seq<Seq<u8>>
    decreases found.len(),
{
    if found.len() == 0 {
        Seq::empty()
    } else {
        match found.last() {
            Some(path) => found_paths(found.drop_last()).push(path@),
            None => found_paths(found.drop_last()),
        }
    }
}

/// `path` adjoined to the directory `base`.
pub fn join_path(base: &str, path: &str) -> (joined: String)
    ensures
        joined@ == spec_join(base@, path@),
{
    let path_len = path.unicode_len();
    let base_len = base.unicode_len();
    if path_len > 0 && path.get_char(0) == '/' {
        String::from_str(path)
    } else if base_len == 0 || base.get_char(base_len - 1) == '/' {
        String::from_str(base).concat(path)
    } else {
        proof {
            reveal_strlit("/");
        }
        String::from_str(base).concat("/").concat(path)
    }
}

/// The names that a directory query has found: byte strings, in the order in
/// which they were found. Names are only ever added.
pub struct FilenameList {
    names: Vec<Vec<u8>>,
}

impl View for FilenameList {
    type V = Seq<Seq<u8>>;

    closed spec fn view(&self) -> Seq<Seq<u8>> {
        Seq::new(self.names@.len(), |i: int| self.names@[i]@)
    }
}

impl FilenameList {
    /// A list without names.
    pub fn new() -> (list: FilenameList)
        ensures
            list@ == Seq::<Seq<u8>>::empty(),
    {
        FilenameList { names: Vec::new() }
    }

    /// Adds `name` at the end of the list.
    pub fn insert(&mut self, name: Vec<u8>)
        ensures
            final(self)@ == old(self)@.push(name@),
    {
        self.names.push(name);
    }

    /// The number of names in the list.
    pub fn len(&self) -> (n: usize)
        ensures
            n == self@.len(),
    {
        self.names.len()
    }

    /// The name at position `i`.
    pub fn get(&self, i: usize) -> (name: &[u8])
        requires
            i < self@.len(),
        ensures
            name@ == self@[i as int],
    {
        self.names[i].as_slice()
    }

    /// Adds the paths among the entries of a directory walk to the list, in
    /// the order of the walk. Entries that could not be read are passed over.
    pub fn append_found(&mut self, found: &[Option<Vec<u8>>])
        ensures
            final(self)@ == old(self)@ + found_paths(found@),
    {
        let mut i: usize = 0;
        while i < found.len()
            invariant
                i <= found@.len(),
                self@ == old(self)@ + found_paths(found@.take(i as int)),
            decreases found@.len() - i,
        {
            assert(found@.take(i + 1).drop_last() =~= found@.take(i as int));
            match &found[i] {
                Some(path) => {
                    self.insert(slice_to_vec(path.as_slice()));
                },
                None => {},
            }
            i = i + 1;
        }
        assert(found@.take(found@.len() as int) =~= found@);
    }
}

/// The error with which the glob crate refuses a pattern.
#[verifier::external_type_specification]
#[verifier::external_body]
pub struct ExPatternError(glob::PatternError);

/// Whether `glob::glob` takes `pattern` as a valid pattern. It decides this
/// from the text of the pattern alone, whatever the host's directories hold.
pub uninterp spec fn glob_accepts(pattern: Seq<char>) -> bool;

/// Walks the host's directories with `glob::glob` and collects what the walk
/// yields, in its order: the path of each match as the bytes of its host
/// name, and nothing for an entry that could not be read. A pattern that
/// `glob::glob` refuses gives its error. Which paths are found depends on
/// what the host's directories hold, so nothing is claimed of them.
#[verifier::external_body]
fn glob_paths(pattern: &str) -> (walk: Result<Vec<Option<Vec<u8>>>, glob::PatternError>)
    ensures
        walk is Ok <==> glob_accepts(pattern@),
{
    let paths = glob::glob(pattern)?;
    Ok(
        paths.map(|entry| entry.ok().map(|path| path.into_os_string().into_encoded_bytes()))
            .collect(),
    )
}

/// The engine's local file system, served from one root directory of the
/// host.
pub struct HybridLocalFileSystem {
    root_path: String,
}

impl Default for HybridLocalFileSystem {
    /// A file system whose root is still the empty path.
    fn default() -> (fs: HybridLocalFileSystem)
        ensures
            fs.root() == Seq::<char>::empty(),
    {
        HybridLocalFileSystem { root_path: String::new() }
    }
}

impl HybridLocalFileSystem {
    /// The root directory under which file names are resolved.
    pub closed spec fn root(&self) -> Seq<char> {
        self.root_path@
    }

    /// Sets the root directory to the configured one. Without a configured
    /// root the file system cannot start: that is a `Configuration` failure,
    /// and the root stays as it was.
    pub fn init(&mut self, generals_root: Option<String>) -> (started: Result<(), ShimError>)
        ensures
            match generals_root {
                Some(root) => started is Ok && final(self).root() == root@,
                None => {
                    &&& started == Err::<(), ShimError>(ShimError::Configuration)
                    &&& final(self).root() == old(self).root()
                },
            },
    {
        match generals_root {
            Some(root) => {
                self.root_path = root;
                Ok(())
            },
            None => Err(ShimError::Configuration),
        }
    }

    /// Returns the file system to a fresh state. It keeps no state beyond
    /// its root, which stays.
    pub fn reset(&mut self)
        ensures
            final(self).root() == old(self).root(),
    {
    }

    /// The periodic update. The file system has nothing to do in it.
    pub fn update(&mut self)
        ensures
            final(self).root() == old(self).root(),
    {
    }

    /// The root directory under which file names are resolved.
    pub fn root_path(&self) -> (root: &str)
        ensures
            root@ == self.root(),
    {
        self.root_path.as_str()
    }

    /// The host path of the file whose presence shows that the root
    /// directory holds the game's data.
    pub fn sanity_marker(&self) -> (path: String)
        ensures
            path@ == spec_join(self.root(), SANITY_MARKER@),
    {
        join_path(self.root_path.as_str(), SANITY_MARKER)
    }

    /// The host path of the engine's file `filename`. It is the path that
    /// opening the file and asking whether it exists both go by.
    pub fn resolve(&self, filename: &str) -> (path: String)
        ensures
            path@ == spec_join(self.root(), filename@),
    {
        join_path(self.root_path.as_str(), filename)
    }

    /// The glob pattern that a directory query for `search_name` walks the
    /// host with.
    pub fn search_pattern(&self, search_name: &str, recurse: bool) -> (pattern: String)
        ensures
            pattern@ == spec_search_pattern(self.root(), search_name@, recurse),
    {
        if recurse {
            proof {
                reveal_strlit("**");
            }
            let below = join_path(self.root_path.as_str(), "**");
            join_path(below.as_str(), search_name)
        } else {
            join_path(self.root_path.as_str(), search_name)
        }
    }

    /// Lists the host files that match `search_name` under the root, in all
    /// directories below it too when `recurse` is set, and adds their paths
    /// to `list` in the order in which the host yields them.
    ///
    /// The two directory arguments belong to a rebasing scheme that is not
    /// supported: unless both are empty the query is `Unimplemented`. A
    /// pattern that is not valid glob syntax is `InvalidPattern`. A query
    /// that fails leaves the list as it was; one that succeeds only adds to
    /// it.
    pub fn list_directory(
        &self,
        current_dir: &str,
        original_dir: &str,
        search_name: &str,
        list: &mut FilenameList,
        recurse: bool,
    ) -> (listed: Result<(), ShimError>)
        ensures
            listed == Self::spec_list_outcome(
                current_dir@,
                original_dir@,
                glob_accepts(spec_search_pattern(self.root(), search_name@, recurse)),
            ),
            listed is Err ==> final(list)@ == old(list)@,
            old(list)@.is_prefix_of(final(list)@),
    {
        if !current_dir.is_empty() || !original_dir.is_empty() {
            return Err(ShimError::Unimplemented);
        }
        let pattern = self.search_pattern(search_name, recurse);
        match glob_paths(pattern.as_str()) {
            Ok(found) => {
                list.append_found(found.as_slice());
                Ok(())
            },
            Err(_) => Err(ShimError::InvalidPattern),
        }
    }

    /// Whether a directory query succeeds, and how it fails.
    pub open spec fn spec_list_outcome(
        current_dir: Seq<char>,
        original_dir: Seq<char>,
        pattern_accepted: bool,
    ) -> Result<(), ShimError> {
        if current_dir.len() != 0 || original_dir.len() != 0 {
            Err(ShimError::Unimplemented)
        } else if !pattern_accepted {
            Err(ShimError::InvalidPattern)
        } else {
            Ok(())
        }
    }

    /// Looks up the size and the time stamp of a file. Not written yet:
    /// always `Unimplemented`.
    pub fn get_file_info(&self, filename: &str) -> (info: Result<(), ShimError>)
        ensures
            info == Err::<(), ShimError>(ShimError::Unimplemented),
    {
        Err(ShimError::Unimplemented)
    }

    /// Creates a directory. Not written yet: always `Unimplemented`, never a
    /// `true` or `false` that would look like an answer.
    pub fn create_directory(&mut self, directory: &str) -> (created: Result<bool, ShimError>)
        ensures
            created == Err::<bool, ShimError>(ShimError::Unimplemented),
            final(self).root() == old(self).root(),
    {
        Err(ShimError::Unimplemented)
    }
}

/// Where a seek on an open file goes.
#[derive(Clone, Copy, Debug, PartialEq, Eq, Structural)]
pub enum SeekTarget {
    /// To this many bytes behind the start of the file.
    Start(u64),
    /// To this many bytes from the current position.
    Current(i64),
    /// To this many bytes from the end of the file.
    End(i64),
}

/// The target of a seek by `new_pos` in the mode `seek_mode`: 0 counts from
/// the start of the file, 1 from the current position, 2 from the end. A
/// negative offset from the start wraps around to the top of the unsigned
/// range, as the engine's own integer conversion does.
pub open spec fn spec_seek_target(new_pos: i32, seek_mode: i32) -> SeekTarget
    recommends
        0 <= seek_mode <= 2,
{
    if seek_mode == 0 {
        SeekTarget::Start(
            if new_pos >= 0 {
                new_pos as u64
            } else {
                (new_pos + 0x1_0000_0000_0000_0000) as u64
            },
        )
    } else if seek_mode == 1 {
        SeekTarget::Current(new_pos as i64)
    } else {
        SeekTarget::End(new_pos as i64)
    }
}

/// Whether `seek_mode` is one of the three modes of a seek.
pub fn is_seek_mode(seek_mode: i32) -> (known: bool)
    ensures
        known == (0 <= seek_mode <= 2),
{
    0 <= seek_mode && seek_mode <= 2
}

/// The target of a seek by `new_pos` in the mode `seek_mode`.
pub fn seek_target(new_pos: i32, seek_mode: i32) -> (target: SeekTarget)
    requires
        0 <= seek_mode <= 2,
    ensures
        target == spec_seek_target(new_pos, seek_mode),
{
    if seek_mode == 0 {
        if new_pos >= 0 {
            SeekTarget::Start(new_pos as u64)
        } else {
            let below_top: u64 = (-(new_pos as i64)) as u64;
            SeekTarget::Start(u64::MAX - below_top + 1)
        }
    } else if seek_mode == 1 {
        SeekTarget::Current(new_pos as i64)
    } else {
        SeekTarget::End(new_pos as i64)
    }
}

/// Whether the check of the root directory has passed: only when the host
/// could look for the marker file and found it. `None` stands for a host
/// that could not tell. A check that fails is a warning; the file system
/// goes on.
pub fn sanity_check_passed(marker_found: Option<bool>) -> (passed: bool)
    ensures
        passed == (marker_found == Some(true)),
{
    match marker_found {
        Some(found) => found,
        None => false,
    }
}

/// The calls that the file system makes on the host for one file.
#[derive(Clone, Copy, Debug, PartialEq, Eq, Structural)]
pub enum FileCall {
    Open,
    Read,
    Seek,
}

/// What it means that the host has failed a call. A file that cannot be
/// opened is a file that is not there, whatever the host's reason: data
/// files may be missing, and the engine is told so. A read or a seek on a
/// file that is already open is not expected to fail.
pub open spec fn spec_host_failure(call: FileCall) -> ShimError {
    match call {
        FileCall::Open => ShimError::NotFound,
        FileCall::Read => ShimError::HostIo,
        FileCall::Seek => ShimError::HostIo,
    }
}

/// What it means that the host has failed `call`.
pub fn host_failure(call: FileCall) -> (failure: ShimError)
    ensures
        failure == spec_host_failure(call),
{
    match call {
        FileCall::Open => ShimError::NotFound,
        FileCall::Read => ShimError::HostIo,
        FileCall::Seek => ShimError::HostIo,
    }
}

/// A file that cannot be opened never stops the process; a failed read or
/// seek always does.
pub proof fn lemma_only_open_may_fail()
    ensures
        forall|call: FileCall|
            spec_host_failure(call).spec_disposition() == Disposition::Sentinel <==> call
                == FileCall::Open,
{
}

} // verus!
