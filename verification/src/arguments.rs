//! The libraries that take the place of the system's own in the launched
//! process, and where each of them is to be found.
//!
//! Nothing here looks at the file system.  A path is judged by what its
//! reader says about it, and the result names the place where a library is
//! to be looked for, not the file itself.

use crate::command_line::{command_line, construct_command_line, texts};
use vstd::prelude::*;

verus! {

/// The library that redirects the launched process to the replacements.
pub const REDIRECT_DLL: &'static str = "zluda_redirect.dll";

/// The usual file name of the collective communication library.
pub const NCCL_DLL: &'static str = "nccl.dll";

/// The usual file name of the runtime compiler.
pub const NVRTC_DLL: &'static str = "nvrtc64.dll";

/// The usual file name of the driver library.
pub const NVCUDA_DLL: &'static str = "nvcuda.dll";

/// The usual file name of the management library.
pub const NVML_DLL: &'static str = "nvml.dll";

/// The usual file name of the vendor's control library.
pub const NVAPI_DLL: &'static str = "nvapi64.dll";

/// The usual file name of the ray tracing library.
pub const NVOPTIX_DLL: &'static str = "optix.6.6.0.dll";

/// The usual file name of the linear algebra library.
pub const CUBLAS_DLL: &'static str = "cublas64.dll";

/// The length of the buffer that a search for a library starts with.
pub const WIN_MAX_PATH: usize = 260;

/// A path that the user gave for a library.
#[derive(Debug, PartialEq, Eq)]
pub struct DllPath {
    pub path: String,
    /// Whether the path names its file without reference to a working
    /// directory or a search path.
    pub is_absolute: bool,
}

/// Where a library is to be found.
#[derive(Debug, PartialEq, Eq)]
pub enum PathSource {
    /// At this path, which is complete.
    Given(String),
    /// Wherever the system's search for libraries finds this path.
    Search(String),
    /// Under this name, in the directory of the launcher itself.
    BesideExecutable(String),
}

/// The mathematical content of a [`PathSource`].
pub enum PathSourceView {
    Given(Seq<char>),
    Search(Seq<char>),
    BesideExecutable(Seq<char>),
}

impl View for PathSource {
    type V = PathSourceView;

    open spec fn view(&self) -> PathSourceView {
        match self {
            PathSource::Given(path) => PathSourceView::Given(path@),
            PathSource::Search(path) => PathSourceView::Search(path@),
            PathSource::BesideExecutable(name) => PathSourceView::BesideExecutable(name@),
        }
    }
}

/// Where a library is to be found if the user gave a path for it.
pub open spec fn given(path: Seq<char>, is_absolute: bool) -> PathSourceView {
    if is_absolute {
        PathSourceView::Given(path)
    } else {
        PathSourceView::Search(path)
    }
}

/// Where a library is to be found: where the user said, and else under its
/// usual name beside the launcher.
pub open spec fn given_or_default(dll: Option<DllPath>, default: Seq<char>) -> PathSourceView {
    match dll {
        Some(dll) => given(dll.path@, dll.is_absolute),
        None => PathSourceView::BesideExecutable(default),
    }
}

/// Where a library is to be found that is only replaced on request.
pub open spec fn given_only(dll: Option<DllPath>) -> Option<PathSourceView> {
    match dll {
        Some(dll) => Some(given(dll.path@, dll.is_absolute)),
        None => None,
    }
}

/// What a search for a library came to.
#[derive(Clone, Copy, Debug, PartialEq, Eq, Structural)]
pub enum SearchStep {
    /// The system found nothing.
    Failed,
    /// The path did not fit; search again with a buffer of this length.
    Grow(usize),
    /// The buffer holds the path in this many units.
    Found(usize),
}

/// The system answers a search with the length of the path it found, zero
/// if it found none.  A path that does not fit the buffer is not written,
/// and the buffer for the next try has room for its end mark too.
pub open spec fn search_step_spec(buffer_len: usize, copied_len: u32) -> SearchStep {
    if copied_len == 0 {
        SearchStep::Failed
    } else if copied_len > buffer_len {
        SearchStep::Grow((copied_len + 1) as usize)
    } else {
        SearchStep::Found(copied_len as usize)
    }
}

/// The options of the launcher.
pub struct ProgramArguments {
    pub nccl: Option<DllPath>,
    pub nvrtc: Option<DllPath>,
    pub nvcuda: Option<DllPath>,
    pub nvml: Option<DllPath>,
    pub nvapi: Option<DllPath>,
    pub nvoptix: Option<DllPath>,
    pub cublas: Option<DllPath>,
    /// The program to launch.
    pub exe: String,
    /// The arguments of the program.
    pub args: Vec<String>,
}

/// What the launcher was asked to do, with every library that is always
/// replaced given a place.
pub struct NormalizedArguments {
    pub nccl_path: PathSource,
    pub nvrtc_path: Option<PathSource>,
    pub nvcuda_path: PathSource,
    pub nvml_path: PathSource,
    pub nvapi_path: Option<PathSource>,
    pub nvoptix_path: Option<PathSource>,
    pub cublas_path: Option<PathSource>,
    pub redirect_path: PathSource,
    pub winapi_command_line_zero_terminated: Vec<u16>,
}

/// The view of a place that may be missing.
pub open spec fn optional(source: Option<PathSource>) -> Option<PathSourceView> {
    match source {
        Some(source) => Some(source@),
        None => None,
    }
}

/// The program and its arguments, in the order of the command line.
pub open spec fn program_and_arguments(exe: Seq<char>, args: Seq<String>) -> Seq<Seq<char>> {
    seq![exe] + texts(args)
}

impl NormalizedArguments {
    /// Says where the library at a path that the user gave is to be found:
    /// at that path if it is absolute, and else wherever the system's search
    /// finds it.
    pub fn get_absolute_path(dll: DllPath) -> (source: PathSource)
        ensures
            source@ == given(dll.path@, dll.is_absolute),
    {
        if dll.is_absolute {
            PathSource::Given(dll.path)
        } else {
            PathSource::Search(dll.path)
        }
    }

    /// Says where a library is to be found that is replaced in any case.
    pub fn get_absolute_path_or_default(dll: Option<DllPath>, default: &str) -> (source: PathSource)
        ensures
            source@ == given_or_default(dll, default@),
    {
        match dll {
            Some(dll) => Self::get_absolute_path(dll),
            None => PathSource::BesideExecutable(default.to_owned()),
        }
    }

    fn get_optional_path(dll: Option<DllPath>) -> (source: Option<PathSource>)
        ensures
            optional(source) == given_only(dll),
    {
        match dll {
            Some(dll) => Some(Self::get_absolute_path(dll)),
            None => None,
        }
    }

    /// Judges the answer to a search for a library.
    pub fn search_step(buffer_len: usize, copied_len: u32) -> (step: SearchStep)
        requires
            copied_len < usize::MAX,
        ensures
            step == search_step_spec(buffer_len, copied_len),
    {
        let copied_len = copied_len as usize;
        if copied_len == 0 {
            SearchStep::Failed
        } else if copied_len > buffer_len {
            SearchStep::Grow(copied_len + 1)
        } else {
            SearchStep::Found(copied_len)
        }
    }

    /// Works out what to launch and with which libraries.
    pub fn new(prog_args: ProgramArguments) -> (normalized: NormalizedArguments)
        ensures
            normalized.nccl_path@ == given_or_default(prog_args.nccl, NCCL_DLL@),
            optional(normalized.nvrtc_path) == given_only(prog_args.nvrtc),
            normalized.nvcuda_path@ == given_or_default(prog_args.nvcuda, NVCUDA_DLL@),
            normalized.nvml_path@ == given_or_default(prog_args.nvml, NVML_DLL@),
            optional(normalized.nvapi_path) == given_only(prog_args.nvapi),
            optional(normalized.nvoptix_path) == given_only(prog_args.nvoptix),
            optional(normalized.cublas_path) == given_only(prog_args.cublas),
            normalized.redirect_path@ == PathSourceView::BesideExecutable(REDIRECT_DLL@),
            normalized.winapi_command_line_zero_terminated@ == command_line(
                program_and_arguments(prog_args.exe@, prog_args.args@),
            ),
    {
        let mut all: Vec<String> = Vec::new();
        all.push(prog_args.exe);
        let mut i: usize = 0;
        while i < prog_args.args.len()
            invariant
                i <= prog_args.args@.len(),
                all@.len() == i + 1,
                all@[0]@ == prog_args.exe@,
                forall|j: int| 0 <= j < i ==> (#[trigger] all@[j + 1])@ == prog_args.args@[j]@,
            decreases prog_args.args@.len() - i,
        {
            all.push(prog_args.args[i].clone());
            i += 1;
        }
        proof {
            let expected = program_and_arguments(prog_args.exe@, prog_args.args@);
            assert(texts(all@).len() == expected.len());
            assert forall|k: int| 0 <= k < expected.len() implies texts(all@)[k] == expected[k] by {
                if k > 0 {
                    assert(all@[(k - 1) + 1]@ == prog_args.args@[k - 1]@);
                }
            }
            assert(texts(all@) =~= expected);
        }
        let winapi_command_line_zero_terminated = construct_command_line(&all);
        NormalizedArguments {
            nccl_path: Self::get_absolute_path_or_default(prog_args.nccl, NCCL_DLL),
            nvrtc_path: Self::get_optional_path(prog_args.nvrtc),
            nvcuda_path: Self::get_absolute_path_or_default(prog_args.nvcuda, NVCUDA_DLL),
            nvml_path: Self::get_absolute_path_or_default(prog_args.nvml, NVML_DLL),
            nvapi_path: Self::get_optional_path(prog_args.nvapi),
            nvoptix_path: Self::get_optional_path(prog_args.nvoptix),
            cublas_path: Self::get_optional_path(prog_args.cublas),
            redirect_path: PathSource::BesideExecutable(REDIRECT_DLL.to_owned()),
            winapi_command_line_zero_terminated,
        }
    }
}

} // verus!
