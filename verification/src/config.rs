//! Configuration of the panic and error-report hooks: backtrace frames,
//! frame filters, verbosity, and the builder producing the two hooks.
//!
//! Everything here is computation over plain values. Reading environment
//! variables, capturing live backtraces and registering process-wide hooks
//! are effects this library does not perform; the functions that depend on
//! them take the read values as arguments.

use crate::fmt::{str_contains, str_eq, str_starts_with};
use crate::Handler;
use vstd::prelude::*;

verus! {

/// A representation of a frame from a backtrace or a span trace.
pub struct Frame {
    /// Frame index.
    pub n: usize,
    /// Frame symbol name.
    pub name: Option<String>,
    /// Source line number.
    pub lineno: Option<u32>,
    /// Source file path.
    pub filename: Option<String>,
}

/// Whether `needle` occurs in `s`.
pub open spec fn spec_contains(s: Seq<char>, needle: Seq<char>) -> bool {
    exists|i: int|
        0 <= i && i + needle.len() <= s.len() && #[trigger] s.subrange(i, i + needle.len())
            == needle
}

/// Whether a symbol name belongs to the language runtime or another
/// dependency rather than to the program under diagnosis.
pub open spec fn spec_dependency_name(n: Seq<char>) -> bool {
    "std::"@.is_prefix_of(n) || "core::"@.is_prefix_of(n) || "backtrace::backtrace::"@.is_prefix_of(
        n,
    ) || "_rust_begin_unwind"@.is_prefix_of(n) || "color_traceback::"@.is_prefix_of(n)
        || "__rust_"@.is_prefix_of(n) || "___rust_"@.is_prefix_of(n) || "__pthread"@.is_prefix_of(n)
        || "_main"@.is_prefix_of(n) || "main"@.is_prefix_of(n) || "__scrt_common_main_seh"@.is_prefix_of(
        n,
    ) || "BaseThreadInitThunk"@.is_prefix_of(n) || "_start"@.is_prefix_of(n)
        || "__libc_start_main"@.is_prefix_of(n) || "start_thread"@.is_prefix_of(n)
}

/// Whether a source path belongs to the standard library or a registry
/// dependency.
pub open spec fn spec_dependency_file(f: Seq<char>) -> bool {
    "/rustc/"@.is_prefix_of(f) || "src/libstd/"@.is_prefix_of(f)
        || "src/libpanic_unwind/"@.is_prefix_of(f) || "src/libtest/"@.is_prefix_of(f)
        || spec_contains(f, "/.cargo/registry/src/"@)
}

/// Whether a symbol name belongs to panic handling itself.
pub open spec fn spec_post_panic_name(n: Seq<char>) -> bool {
    "_rust_begin_unwind"@.is_prefix_of(n) || "rust_begin_unwind"@.is_prefix_of(n)
        || "core::result::unwrap_failed"@.is_prefix_of(n)
        || "core::option::expect_none_failed"@.is_prefix_of(n)
        || "core::panicking::panic_fmt"@.is_prefix_of(n)
        || "color_backtrace::create_panic_handler"@.is_prefix_of(n)
        || "std::panicking::begin_panic"@.is_prefix_of(n) || "begin_panic_fmt"@.is_prefix_of(n)
        || "failure::backtrace::Backtrace::new"@.is_prefix_of(n) || "backtrace::capture"@.is_prefix_of(
        n,
    ) || "failure::error_message::err_msg"@.is_prefix_of(n)
        || "<failure::error::Error as core::convert::From<F>>::from"@.is_prefix_of(n)
}

/// Whether a symbol name belongs to language runtime initialization.
pub open spec fn spec_runtime_init_name(n: Seq<char>) -> bool {
    "std::rt::lang_start::"@.is_prefix_of(n) || "test::run_test::run_test_inner::"@.is_prefix_of(n)
        || "std::sys_common::backtrace::__rust_begin_short_backtrace"@.is_prefix_of(n)
}

impl Frame {
    /// Whether this frame is likely dependency rather than user code, by its
    /// symbol name or its source path.
    pub open spec fn spec_is_dependency_code(self) -> bool {
        (self.name matches Some(n) && spec_dependency_name(n@)) || (self.filename matches Some(f)
            && spec_dependency_file(f@))
    }

    /// Whether this frame is likely to be a post-panic frame: one of the
    /// functions called after the actual panic is already in progress.
    pub open spec fn spec_is_post_panic_code(self) -> bool {
        self.name matches Some(n) && spec_post_panic_name(n@)
    }

    /// Whether this frame is likely part of language runtime
    /// initialization.
    pub open spec fn spec_is_runtime_init_code(self) -> bool {
        self.name matches Some(n) && self.filename matches Some(f) && (spec_runtime_init_name(n@)
            || (n@ == "{{closure}}"@ && f@ == "src/libtest/lib.rs"@))
    }

    /// Heuristically determines whether a frame is likely to be dependency
    /// code rather than code under diagnosis.
    pub fn is_dependency_code(&self) -> (r: bool)
        ensures
            r == self.spec_is_dependency_code(),
    {
        match &self.name {
            Some(n) => {
                let name = n.as_str();
                if str_starts_with(name, "std::") || str_starts_with(name, "core::")
                    || str_starts_with(name, "backtrace::backtrace::") || str_starts_with(
                    name,
                    "_rust_begin_unwind",
                ) || str_starts_with(name, "color_traceback::") || str_starts_with(name, "__rust_")
                    || str_starts_with(name, "___rust_") || str_starts_with(name, "__pthread")
                    || str_starts_with(name, "_main") || str_starts_with(name, "main")
                    || str_starts_with(name, "__scrt_common_main_seh") || str_starts_with(
                    name,
                    "BaseThreadInitThunk",
                ) || str_starts_with(name, "_start") || str_starts_with(name, "__libc_start_main")
                    || str_starts_with(name, "start_thread") {
                    return true;
                }
            },
            None => {},
        }
        match &self.filename {
            Some(f) => {
                let file = f.as_str();
                str_starts_with(file, "/rustc/") || str_starts_with(file, "src/libstd/")
                    || str_starts_with(file, "src/libpanic_unwind/") || str_starts_with(
                    file,
                    "src/libtest/",
                ) || str_contains(file, "/.cargo/registry/src/")
            },
            None => false,
        }
    }

    /// Heuristically determines whether a frame is likely to be a
    /// post-panic frame: such frames carry no useful information for a
    /// reader of the backtrace.
    pub fn is_post_panic_code(&self) -> (r: bool)
        ensures
            r == self.spec_is_post_panic_code(),
    {
        match &self.name {
            Some(n) => {
                let name = n.as_str();
                str_starts_with(name, "_rust_begin_unwind") || str_starts_with(
                    name,
                    "rust_begin_unwind",
                ) || str_starts_with(name, "core::result::unwrap_failed") || str_starts_with(
                    name,
                    "core::option::expect_none_failed",
                ) || str_starts_with(name, "core::panicking::panic_fmt") || str_starts_with(
                    name,
                    "color_backtrace::create_panic_handler",
                ) || str_starts_with(name, "std::panicking::begin_panic") || str_starts_with(
                    name,
                    "begin_panic_fmt",
                ) || str_starts_with(name, "failure::backtrace::Backtrace::new") || str_starts_with(
                    name,
                    "backtrace::capture",
                ) || str_starts_with(name, "failure::error_message::err_msg") || str_starts_with(
                    name,
                    "<failure::error::Error as core::convert::From<F>>::from",
                )
            },
            None => false,
        }
    }

    /// Heuristically determines whether a frame is likely to be part of the
    /// language runtime.
    pub fn is_runtime_init_code(&self) -> (r: bool)
        ensures
            r == self.spec_is_runtime_init_code(),
    {
        let name = match &self.name {
            Some(n) => n,
            None => {
                return false;
            },
        };
        let file = match &self.filename {
            Some(f) => f,
            None => {
                return false;
            },
        };
        if str_starts_with(name.as_str(), "std::rt::lang_start::") || str_starts_with(
            name.as_str(),
            "test::run_test::run_test_inner::",
        ) || str_starts_with(
            name.as_str(),
            "std::sys_common::backtrace::__rust_begin_short_backtrace",
        ) {
            return true;
        }
        str_eq(name.as_str(), "{{closure}}") && str_eq(file.as_str(), "src/libtest/lib.rs")
    }
}

/// A filter over backtrace frames. The pointer-based original accepts
/// arbitrary filter closures; this formulation offers the library's own
/// filters and a prefix filter, which cover every filter the library itself
/// installs.
pub enum FrameFilter {
    /// Keeps the frames between the panic site and runtime initialization.
    DefaultFrames,
    /// Hides the error-reporting machinery's own frames.
    EyreFrames,
    /// Hides frames whose symbol name starts with one of the given
    /// prefixes, and nameless frames.
    HidePrefixes(Vec<String>),
}

/// The index just above the last post-panic frame, where the interesting
/// part of a backtrace begins; frame indices are one-based.
pub open spec fn spec_top_cutoff(frames: Seq<Frame>) -> int
    decreases frames.len(),
{
    if frames.len() == 0 {
        0
    } else if frames.last().spec_is_post_panic_code() {
        frames.len() - 1 + 2
    } else {
        spec_top_cutoff(frames.drop_last())
    }
}

/// The index of the first runtime-initialization frame, where the
/// interesting part of a backtrace ends.
pub open spec fn spec_bottom_cutoff(frames: Seq<Frame>) -> int {
    spec_bottom_cutoff_from(frames, 0)
}

/// The index of the first runtime-initialization frame at or after `i`.
pub open spec fn spec_bottom_cutoff_from(frames: Seq<Frame>, i: int) -> int
    decreases frames.len() - i,
{
    if i < 0 || i >= frames.len() {
        frames.len() as int
    } else if frames[i].spec_is_runtime_init_code() {
        i
    } else {
        spec_bottom_cutoff_from(frames, i + 1)
    }
}

/// Whether a frame's name starts with one of the given prefixes; nameless
/// frames count as matching.
pub open spec fn spec_name_hidden(f: Frame, prefixes: Seq<Seq<char>>) -> bool {
    match f.name {
        Some(n) => exists|i: int|
            0 <= i < prefixes.len() && (#[trigger] prefixes[i]).is_prefix_of(n@),
        None => true,
    }
}

/// What one filter keeps of a frame sequence.
pub open spec fn spec_filtered(filter: FrameFilter, frames: Seq<Frame>) -> Seq<Frame> {
    match filter {
        FrameFilter::DefaultFrames => frames.filter(
            |f: Frame|
                spec_top_cutoff(frames) <= f.n as int && f.n as int <= spec_bottom_cutoff(frames),
        ),
        FrameFilter::EyreFrames => frames.filter(
            |f: Frame|
                !spec_name_hidden(
                    f,
                    seq![
                        "<color_eyre::Handler as eyre::EyreHandler>::default"@,
                        "eyre::"@,
                        "color_eyre::"@,
                    ],
                ),
        ),
        FrameFilter::HidePrefixes(prefixes) => frames.filter(
            |f: Frame| !spec_name_hidden(f, prefixes.deep_view()),
        ),
    }
}

/// Finds the cutoff above the last post-panic frame.
fn top_cutoff(frames: &Vec<Frame>) -> (r: usize)
    requires
        frames@.len() + 1 <= usize::MAX,
    ensures
        r as int == spec_top_cutoff(frames@),
        r <= frames@.len() + 1,
{
    let mut i = frames.len();
    proof {
        assert(frames@.subrange(0, i as int) =~= frames@);
    }
    while i > 0
        invariant
            i <= frames@.len(),
            frames@.len() + 1 <= usize::MAX,
            spec_top_cutoff(frames@) == spec_top_cutoff(frames@.subrange(0, i as int)),
        decreases i,
    {
        let ghost pre = frames@.subrange(0, i as int);
        proof {
            assert(pre.drop_last() =~= frames@.subrange(0, i - 1));
            assert(pre.last() == frames@[i - 1]);
        }
        if frames[i - 1].is_post_panic_code() {
            return i + 1;
        }
        i = i - 1;
    }
    proof {
        assert(frames@.subrange(0, 0) =~= Seq::<Frame>::empty());
    }
    0
}

/// Finds the index of the first runtime-initialization frame.
fn bottom_cutoff(frames: &Vec<Frame>) -> (r: usize)
    ensures
        r as int == spec_bottom_cutoff(frames@),
        r <= frames@.len(),
{
    let mut i: usize = 0;
    while i < frames.len()
        invariant
            i <= frames@.len(),
            spec_bottom_cutoff(frames@) == spec_bottom_cutoff_from(frames@, i as int),
        decreases frames@.len() - i,
    {
        if frames[i].is_runtime_init_code() {
            return i;
        }
        i = i + 1;
    }
    i
}

/// Whether a frame's name starts with one of the given prefixes (nameless
/// frames count as matching).
fn name_hidden(f: &Frame, prefixes: &Vec<String>) -> (r: bool)
    ensures
        r == spec_name_hidden(*f, prefixes.deep_view()),
{
    let name = match &f.name {
        Some(n) => n,
        None => {
            return true;
        },
    };
    let mut i: usize = 0;
    while i < prefixes.len()
        invariant
            i <= prefixes@.len(),
            f.name matches Some(nm) && nm == name,
            forall|j: int|
                0 <= j < i ==> !(#[trigger] prefixes.deep_view()[j]).is_prefix_of(name@),
        decreases prefixes@.len() - i,
    {
        if str_starts_with(name.as_str(), prefixes[i].as_str()) {
            proof {
                assert((prefixes.deep_view()[i as int]).is_prefix_of(name@));
            }
            return true;
        }
        i = i + 1;
    }
    false
}

/// The default frame filter: cuts the backtrace to the frames between the
/// panic machinery at the top and runtime initialization at the bottom.
#[verifier::loop_isolation(false)]
pub fn default_frame_filter(frames: Vec<Frame>) -> (r: Vec<Frame>)
    requires
        frames@.len() + 1 <= usize::MAX,
    ensures
        r@ == spec_filtered(FrameFilter::DefaultFrames, frames@),
{
    let ghost all = frames@;
    let ghost pred = |f: Frame|
        spec_top_cutoff(all) <= f.n as int && f.n as int <= spec_bottom_cutoff(all);
    let top = top_cutoff(&frames);
    let bottom = bottom_cutoff(&frames);
    let mut rest = frames;
    let mut out: Vec<Frame> = Vec::new();
    proof {
        reveal(Seq::filter);
        assert(out@ =~= all.subrange(0, 0).filter(pred));
        assert(rest@ =~= all.subrange(0, all.len() as int));
    }
    while rest.len() > 0
        invariant
            rest@.len() <= all.len(),
            top as int == spec_top_cutoff(all),
            bottom as int == spec_bottom_cutoff(all),
            rest@ == all.subrange(all.len() - rest@.len(), all.len() as int),
            out@ == all.subrange(0, all.len() - rest@.len()).filter(pred),
        decreases rest@.len(),
    {
        let ghost done = all.len() - rest@.len();
        let f = rest.remove(0);
        proof {
            assert(f == all[done]);
            assert(rest@ =~= all.subrange(all.len() - rest@.len(), all.len() as int));
            assert(all.subrange(0, done + 1).drop_last() =~= all.subrange(0, done));
            assert(all.subrange(0, done + 1).last() == all[done]);
        }
        if top <= f.n && f.n <= bottom {
            out.push(f);
        }
        proof {
            reveal(Seq::filter);
            assert(seq![f].drop_last() =~= Seq::<Frame>::empty());
            assert(Seq::<Frame>::empty().filter(pred) =~= Seq::<Frame>::empty());
            assert(seq![f].last() == f);
            assert(seq![f].filter(pred) == (if pred(f) {
                Seq::<Frame>::empty().push(f)
            } else {
                Seq::<Frame>::empty()
            }));
            Seq::<Frame>::filter_distributes_over_add(all.subrange(0, done), seq![f], pred);
            assert(all.subrange(0, done + 1) =~= all.subrange(0, done) + seq![f]);
            assert(all.subrange(0, done + 1).filter(pred) == all.subrange(0, done).filter(pred)
                + seq![f].filter(pred));
            assert(out@ =~= all.subrange(0, done).filter(pred) + seq![f].filter(pred));
            assert(out@ =~= all.subrange(0, done + 1).filter(pred));
        }
    }
    proof {
        assert(all.subrange(0, all.len() as int) =~= all);
    }
    out
}

/// Keeps the frames a prefix filter does not hide.
#[verifier::loop_isolation(false)]
fn retain_not_hidden(frames: Vec<Frame>, prefixes: &Vec<String>) -> (r: Vec<Frame>)
    ensures
        r@ == frames@.filter(|f: Frame| !spec_name_hidden(f, prefixes.deep_view())),
{
    let ghost all = frames@;
    let ghost pred = |f: Frame| !spec_name_hidden(f, prefixes.deep_view());
    let mut rest = frames;
    let mut out: Vec<Frame> = Vec::new();
    proof {
        reveal(Seq::filter);
        assert(out@ =~= all.subrange(0, 0).filter(pred));
        assert(rest@ =~= all.subrange(0, all.len() as int));
    }
    while rest.len() > 0
        invariant
            rest@.len() <= all.len(),
            rest@ == all.subrange(all.len() - rest@.len(), all.len() as int),
            out@ == all.subrange(0, all.len() - rest@.len()).filter(pred),
        decreases rest@.len(),
    {
        let ghost done = all.len() - rest@.len();
        let f = rest.remove(0);
        proof {
            assert(f == all[done]);
            assert(rest@ =~= all.subrange(all.len() - rest@.len(), all.len() as int));
            assert(all.subrange(0, done + 1).drop_last() =~= all.subrange(0, done));
            assert(all.subrange(0, done + 1).last() == all[done]);
        }
        let hidden = name_hidden(&f, prefixes);
        if !hidden {
            out.push(f);
        }
        proof {
            reveal(Seq::filter);
            assert(seq![f].drop_last() =~= Seq::<Frame>::empty());
            assert(Seq::<Frame>::empty().filter(pred) =~= Seq::<Frame>::empty());
            assert(seq![f].last() == f);
            assert(seq![f].filter(pred) == (if pred(f) {
                Seq::<Frame>::empty().push(f)
            } else {
                Seq::<Frame>::empty()
            }));
            Seq::<Frame>::filter_distributes_over_add(all.subrange(0, done), seq![f], pred);
            assert(all.subrange(0, done + 1) =~= all.subrange(0, done) + seq![f]);
            assert(all.subrange(0, done + 1).filter(pred) == all.subrange(0, done).filter(pred)
                + seq![f].filter(pred));
            assert(out@ =~= all.subrange(0, done).filter(pred) + seq![f].filter(pred));
            assert(out@ =~= all.subrange(0, done + 1).filter(pred));
        }
    }
    proof {
        assert(all.subrange(0, all.len() as int) =~= all);
    }
    out
}

/// The prefixes whose frames belong to the error-reporting machinery
/// itself.
fn eyre_filter_prefixes() -> (v: Vec<String>)
    ensures
        v.deep_view() =~= seq![
            "<color_eyre::Handler as eyre::EyreHandler>::default"@,
            "eyre::"@,
            "color_eyre::"@,
        ],
{
    let mut v: Vec<String> = Vec::new();
    v.push(String::from_str("<color_eyre::Handler as eyre::EyreHandler>::default"));
    v.push(String::from_str("eyre::"));
    v.push(String::from_str("color_eyre::"));
    v
}

/// The filter hiding the error-reporting machinery's own frames.
pub fn eyre_frame_filters(frames: Vec<Frame>) -> (r: Vec<Frame>)
    ensures
        r@ == spec_filtered(FrameFilter::EyreFrames, frames@),
{
    let prefixes = eyre_filter_prefixes();
    let ghost all = frames@;
    let r = retain_not_hidden(frames, &prefixes);
    proof {
        assert(r@ =~= spec_filtered(FrameFilter::EyreFrames, all));
    }
    r
}

impl FrameFilter {
    /// Applies this filter to a frame sequence.
    pub fn apply(&self, frames: Vec<Frame>) -> (r: Vec<Frame>)
        requires
            frames@.len() + 1 <= usize::MAX,
        ensures
            r@ == spec_filtered(*self, frames@),
    {
        match self {
            FrameFilter::DefaultFrames => default_frame_filter(frames),
            FrameFilter::EyreFrames => eyre_frame_filters(frames),
            FrameFilter::HidePrefixes(prefixes) => retain_not_hidden(frames, prefixes),
        }
    }
}

/// An owned copy of the optional text, with the same characters.
fn clone_opt_string(s: &Option<String>) -> (r: Option<String>)
    ensures
        r is Some <==> s is Some,
        r matches Some(b) ==> (s matches Some(a) && a@ == b@),
{
    match s {
        Some(a) => Some(a.clone()),
        None => None,
    }
}

/// How much of a backtrace the report should carry.
#[derive(PartialEq, Eq, Structural, Clone, Copy)]
pub enum Verbosity {
    /// No backtrace.
    Minimal,
    /// A filtered backtrace.
    Medium,
    /// The full backtrace with source snippets.
    Full,
}

/// The verbosity a backtrace environment setting asks for: `full` means
/// everything, any other non-`0` value a filtered backtrace, and `0` or an
/// unset variable the minimum.
pub open spec fn spec_verbosity(value: Option<Seq<char>>) -> Verbosity {
    match value {
        Some(s) => if s == "full"@ {
            Verbosity::Full
        } else if s != "0"@ {
            Verbosity::Medium
        } else {
            Verbosity::Minimal
        },
        None => Verbosity::Minimal,
    }
}

/// The verbosity the panic hook runs at, given the backtrace environment
/// setting.
pub fn panic_verbosity(value: Option<String>) -> (v: Verbosity)
    ensures
        v == spec_verbosity(
            match value {
                Some(s) => Some(s@),
                None => None,
            },
        ),
{
    match value {
        Some(s) => {
            if str_eq(s.as_str(), "full") {
                Verbosity::Full
            } else if !str_eq(s.as_str(), "0") {
                Verbosity::Medium
            } else {
                Verbosity::Minimal
            }
        },
        None => Verbosity::Minimal,
    }
}

/// The verbosity error reports run at: the library-specific setting wins
/// over the general backtrace setting.
pub fn lib_verbosity(lib_value: Option<String>, value: Option<String>) -> (v: Verbosity)
    ensures
        lib_value matches Some(s) ==> v == spec_verbosity(Some(s@)),
        lib_value is None ==> v == spec_verbosity(
            match value {
                Some(s) => Some(s@),
                None => None,
            },
        ),
{
    match lib_value {
        Some(s) => panic_verbosity(Some(s)),
        None => panic_verbosity(value),
    }
}

/// Builder for customizing the behavior of the panic and error report
/// hooks.
pub struct HookBuilder {
    filters: Vec<FrameFilter>,
    capture_span_trace_by_default: bool,
    display_env_section: bool,
    panic_section: Option<String>,
    panic_message: String,
    issue_url: Option<String>,
    issue_metadata: Vec<(String, String)>,
}

/// The headline the default panic message starts with.
pub fn default_panic_headline() -> (s: String)
    ensures
        s@ == "The application panicked (crashed)."@,
{
    String::from_str("The application panicked (crashed).")
}

impl HookBuilder {
    /// The filters this builder installs.
    pub closed spec fn filters_spec(self) -> Seq<FrameFilter> {
        self.filters@
    }

    /// Whether hooks built here capture span traces by default.
    pub closed spec fn capture_span_trace_spec(self) -> bool {
        self.capture_span_trace_by_default
    }

    /// Whether reports rendered under hooks built here end with the
    /// environment section.
    pub closed spec fn display_env_section_spec(self) -> bool {
        self.display_env_section
    }

    /// The custom panic section, if one was set.
    pub closed spec fn panic_section_spec(self) -> Option<Seq<char>> {
        match self.panic_section {
            Some(s) => Some(s@),
            None => None,
        }
    }

    /// The panic headline.
    pub closed spec fn panic_message_spec(self) -> Seq<char> {
        self.panic_message@
    }

    /// The issue URL, if one was set.
    pub closed spec fn issue_url_spec(self) -> Option<Seq<char>> {
        match self.issue_url {
            Some(s) => Some(s@),
            None => None,
        }
    }

    /// The issue metadata table.
    pub closed spec fn issue_metadata_spec(self) -> Seq<(Seq<char>, Seq<char>)> {
        Seq::new(
            self.issue_metadata@.len(),
            |i: int| (self.issue_metadata@[i].0@, self.issue_metadata@[i].1@),
        )
    }

    /// Constructs a builder with the default filters installed and span
    /// traces captured by default.
    pub fn new() -> (b: HookBuilder)
        ensures
            b.filters_spec() == seq![FrameFilter::DefaultFrames, FrameFilter::EyreFrames],
            b.capture_span_trace_spec(),
            b.display_env_section_spec(),
            b.panic_section_spec() is None,
            b.panic_message_spec() == "The application panicked (crashed)."@,
            b.issue_url_spec() is None,
            b.issue_metadata_spec() =~= Seq::<(Seq<char>, Seq<char>)>::empty(),
    {
        let b = HookBuilder::blank().add_default_filters().capture_span_trace_by_default(true);
        proof {
            assert(b.filters_spec() =~= seq![FrameFilter::DefaultFrames, FrameFilter::EyreFrames]);
        }
        b
    }

    /// Constructs a builder with minimal features enabled.
    pub fn blank() -> (b: HookBuilder)
        ensures
            b.filters_spec() =~= Seq::<FrameFilter>::empty(),
            !b.capture_span_trace_spec(),
            b.display_env_section_spec(),
            b.panic_section_spec() is None,
            b.panic_message_spec() == "The application panicked (crashed)."@,
            b.issue_url_spec() is None,
            b.issue_metadata_spec() =~= Seq::<(Seq<char>, Seq<char>)>::empty(),
    {
        HookBuilder {
            filters: Vec::new(),
            capture_span_trace_by_default: false,
            display_env_section: true,
            panic_section: None,
            panic_message: default_panic_headline(),
            issue_url: None,
            issue_metadata: Vec::new(),
        }
    }

    /// Adds a custom section to be printed in the panic message.
    pub fn panic_section(self, section: String) -> (b: HookBuilder)
        ensures
            b.panic_section_spec() == Some(section@),
            b.filters_spec() == self.filters_spec(),
            b.capture_span_trace_spec() == self.capture_span_trace_spec(),
            b.display_env_section_spec() == self.display_env_section_spec(),
            b.panic_message_spec() == self.panic_message_spec(),
            b.issue_url_spec() == self.issue_url_spec(),
            b.issue_metadata_spec() == self.issue_metadata_spec(),
    {
        let HookBuilder {
            filters,
            capture_span_trace_by_default,
            display_env_section,
            panic_section,
            panic_message,
            issue_url,
            issue_metadata,
        } = self;
        HookBuilder {
            panic_section: Some(section),
            filters,
            capture_span_trace_by_default,
            display_env_section,
            panic_message,
            issue_url,
            issue_metadata,
        }
    }

    /// Overrides the headline printed at the start of panic reports.
    pub fn panic_message(self, message: String) -> (b: HookBuilder)
        ensures
            b.panic_message_spec() == message@,
            b.filters_spec() == self.filters_spec(),
            b.capture_span_trace_spec() == self.capture_span_trace_spec(),
            b.display_env_section_spec() == self.display_env_section_spec(),
            b.panic_section_spec() == self.panic_section_spec(),
            b.issue_url_spec() == self.issue_url_spec(),
            b.issue_metadata_spec() == self.issue_metadata_spec(),
    {
        let HookBuilder {
            filters,
            capture_span_trace_by_default,
            display_env_section,
            panic_section,
            panic_message,
            issue_url,
            issue_metadata,
        } = self;
        HookBuilder {
            panic_message: message,
            filters,
            capture_span_trace_by_default,
            display_env_section,
            panic_section,
            issue_url,
            issue_metadata,
        }
    }

    /// Sets an upstream repository URL, enabling issue-reporting URL
    /// generation.
    pub fn issue_url(self, url: String) -> (b: HookBuilder)
        ensures
            b.issue_url_spec() == Some(url@),
            b.filters_spec() == self.filters_spec(),
            b.capture_span_trace_spec() == self.capture_span_trace_spec(),
            b.display_env_section_spec() == self.display_env_section_spec(),
            b.panic_section_spec() == self.panic_section_spec(),
            b.panic_message_spec() == self.panic_message_spec(),
            b.issue_metadata_spec() == self.issue_metadata_spec(),
    {
        let HookBuilder {
            filters,
            capture_span_trace_by_default,
            display_env_section,
            panic_section,
            panic_message,
            issue_url,
            issue_metadata,
        } = self;
        HookBuilder {
            issue_url: Some(url),
            filters,
            capture_span_trace_by_default,
            display_env_section,
            panic_section,
            panic_message,
            issue_metadata,
        }
    }

    /// Adds one entry to the metadata table of generated issue URLs.
    pub fn add_issue_metadata(self, key: String, value: String) -> (b: HookBuilder)
        ensures
            b.issue_metadata_spec() =~= self.issue_metadata_spec().push((key@, value@)),
            b.filters_spec() == self.filters_spec(),
            b.capture_span_trace_spec() == self.capture_span_trace_spec(),
            b.display_env_section_spec() == self.display_env_section_spec(),
            b.panic_section_spec() == self.panic_section_spec(),
            b.panic_message_spec() == self.panic_message_spec(),
            b.issue_url_spec() == self.issue_url_spec(),
    {
        let HookBuilder {
            filters,
            capture_span_trace_by_default,
            display_env_section,
            panic_section,
            panic_message,
            issue_url,
            mut issue_metadata,
        } = self;
        issue_metadata.push((key, value));
        HookBuilder {
            issue_metadata,
            filters,
            capture_span_trace_by_default,
            display_env_section,
            panic_section,
            panic_message,
            issue_url,
        }
    }

    /// Configures the default capture mode for span traces.
    pub fn capture_span_trace_by_default(self, cond: bool) -> (b: HookBuilder)
        ensures
            b.capture_span_trace_spec() == cond,
            b.filters_spec() == self.filters_spec(),
            b.display_env_section_spec() == self.display_env_section_spec(),
            b.panic_section_spec() == self.panic_section_spec(),
            b.panic_message_spec() == self.panic_message_spec(),
            b.issue_url_spec() == self.issue_url_spec(),
            b.issue_metadata_spec() == self.issue_metadata_spec(),
    {
        let HookBuilder {
            filters,
            capture_span_trace_by_default,
            display_env_section,
            panic_section,
            panic_message,
            issue_url,
            issue_metadata,
        } = self;
        HookBuilder {
            capture_span_trace_by_default: cond,
            filters,
            display_env_section,
            panic_section,
            panic_message,
            issue_url,
            issue_metadata,
        }
    }

    /// Configures whether rendered reports end with the environment
    /// section.
    pub fn display_env_section(self, cond: bool) -> (b: HookBuilder)
        ensures
            b.display_env_section_spec() == cond,
            b.filters_spec() == self.filters_spec(),
            b.capture_span_trace_spec() == self.capture_span_trace_spec(),
            b.panic_section_spec() == self.panic_section_spec(),
            b.panic_message_spec() == self.panic_message_spec(),
            b.issue_url_spec() == self.issue_url_spec(),
            b.issue_metadata_spec() == self.issue_metadata_spec(),
    {
        let HookBuilder {
            filters,
            capture_span_trace_by_default,
            display_env_section,
            panic_section,
            panic_message,
            issue_url,
            issue_metadata,
        } = self;
        HookBuilder {
            display_env_section: cond,
            filters,
            capture_span_trace_by_default,
            panic_section,
            panic_message,
            issue_url,
            issue_metadata,
        }
    }

    /// Adds a custom filter to the set of frame filters.
    pub fn add_frame_filter(self, filter: FrameFilter) -> (b: HookBuilder)
        ensures
            b.filters_spec() =~= self.filters_spec().push(filter),
            b.capture_span_trace_spec() == self.capture_span_trace_spec(),
            b.display_env_section_spec() == self.display_env_section_spec(),
            b.panic_section_spec() == self.panic_section_spec(),
            b.panic_message_spec() == self.panic_message_spec(),
            b.issue_url_spec() == self.issue_url_spec(),
            b.issue_metadata_spec() == self.issue_metadata_spec(),
    {
        let HookBuilder {
            mut filters,
            capture_span_trace_by_default,
            display_env_section,
            panic_section,
            panic_message,
            issue_url,
            issue_metadata,
        } = self;
        filters.push(filter);
        HookBuilder {
            filters,
            capture_span_trace_by_default,
            display_env_section,
            panic_section,
            panic_message,
            issue_url,
            issue_metadata,
        }
    }

    /// Adds the default set of filters to this builder's configuration.
    pub fn add_default_filters(self) -> (b: HookBuilder)
        ensures
            b.filters_spec() =~= self.filters_spec().push(FrameFilter::DefaultFrames).push(
                FrameFilter::EyreFrames,
            ),
            b.capture_span_trace_spec() == self.capture_span_trace_spec(),
            b.display_env_section_spec() == self.display_env_section_spec(),
            b.panic_section_spec() == self.panic_section_spec(),
            b.panic_message_spec() == self.panic_message_spec(),
            b.issue_url_spec() == self.issue_url_spec(),
            b.issue_metadata_spec() == self.issue_metadata_spec(),
    {
        self.add_frame_filter(FrameFilter::DefaultFrames).add_frame_filter(FrameFilter::EyreFrames)
    }

    /// Splits this configuration into the panic-side and report-side hooks.
    pub fn into_hooks(self) -> (hooks: (PanicHook, EyreHook))
        ensures
            hooks.0.filters@ == self.filters_spec(),
            hooks.0.section_spec() == self.panic_section_spec(),
            hooks.0.capture_span_trace_by_default == self.capture_span_trace_spec(),
            hooks.0.display_env_section == self.display_env_section_spec(),
            hooks.0.panic_message@ == self.panic_message_spec(),
            hooks.0.issue_url_spec() == self.issue_url_spec(),
            hooks.1.capture_span_trace_by_default == self.capture_span_trace_spec(),
            hooks.1.display_env_section == self.display_env_section_spec(),
            hooks.1.issue_url_spec() == self.issue_url_spec(),
    {
        let HookBuilder {
            filters,
            capture_span_trace_by_default,
            display_env_section,
            panic_section,
            panic_message,
            issue_url,
            issue_metadata,
        } = self;
        let issue_url_copy = clone_opt_string(&issue_url);
        let panic_hook = PanicHook {
            filters,
            section: panic_section,
            capture_span_trace_by_default,
            display_env_section,
            panic_message,
            issue_url,
            issue_metadata,
        };
        let eyre_hook = EyreHook {
            capture_span_trace_by_default,
            display_env_section,
            issue_url: issue_url_copy,
        };
        (panic_hook, eyre_hook)
    }
}

impl Default for HookBuilder {
    /// A builder with the default filters, as [`HookBuilder::new`] builds.
    fn default() -> (b: HookBuilder)
        ensures
            b.filters_spec() == seq![FrameFilter::DefaultFrames, FrameFilter::EyreFrames],
            b.capture_span_trace_spec(),
            b.display_env_section_spec(),
            b.panic_section_spec() is None,
            b.panic_message_spec() == "The application panicked (crashed)."@,
            b.issue_url_spec() is None,
            b.issue_metadata_spec() =~= Seq::<(Seq<char>, Seq<char>)>::empty(),
    {
        HookBuilder::new()
    }
}

/// The panic-side hook: what the panic handler needs to format a panic.
pub struct PanicHook {
    /// The frame filters to apply to captured backtraces.
    pub filters: Vec<FrameFilter>,
    /// A custom section for panic messages.
    pub section: Option<String>,
    /// The panic headline.
    pub panic_message: String,
    /// Whether to capture span traces when no explicit setting is present.
    pub capture_span_trace_by_default: bool,
    /// Whether panic output ends with the environment section.
    pub display_env_section: bool,
    /// The issue URL, if issue reporting is enabled.
    pub issue_url: Option<String>,
    /// The issue metadata table.
    pub issue_metadata: Vec<(String, String)>,
}

/// What the filters leave of a frame sequence, applied in order.
pub open spec fn spec_all_filtered(filters: Seq<FrameFilter>, frames: Seq<Frame>) -> Seq<Frame>
    decreases filters.len(),
{
    if filters.len() == 0 {
        frames
    } else {
        spec_all_filtered(filters.drop_first(), spec_filtered(filters.first(), frames))
    }
}

/// A filter never lengthens a frame sequence.
proof fn lemma_filtered_shrinks(filter: FrameFilter, frames: Seq<Frame>)
    ensures
        spec_filtered(filter, frames).len() <= frames.len(),
{
    match filter {
        FrameFilter::DefaultFrames => {
            frames.lemma_filter_len(
                |f: Frame|
                    spec_top_cutoff(frames) <= f.n as int && f.n as int <= spec_bottom_cutoff(
                        frames,
                    ),
            );
        },
        FrameFilter::EyreFrames => {
            frames.lemma_filter_len(
                |f: Frame|
                    !spec_name_hidden(
                        f,
                        seq![
                            "<color_eyre::Handler as eyre::EyreHandler>::default"@,
                            "eyre::"@,
                            "color_eyre::"@,
                        ],
                    ),
            );
        },
        FrameFilter::HidePrefixes(prefixes) => {
            frames.lemma_filter_len(|f: Frame| !spec_name_hidden(f, prefixes.deep_view()));
        },
    }
}

impl PanicHook {
    /// The custom panic section, if one was set.
    pub open spec fn section_spec(self) -> Option<Seq<char>> {
        match self.section {
            Some(s) => Some(s@),
            None => None,
        }
    }

    /// The issue URL, if one was set.
    pub open spec fn issue_url_spec(self) -> Option<Seq<char>> {
        match self.issue_url {
            Some(s) => Some(s@),
            None => None,
        }
    }

    /// Whether a span trace should be captured, given the span-trace
    /// environment setting: an explicit setting wins, any value but `0`
    /// enabling capture.
    pub fn spantrace_capture_enabled(&self, env_value: Option<String>) -> (r: bool)
        ensures
            env_value matches Some(s) ==> r == (s@ != "0"@),
            env_value is None ==> r == self.capture_span_trace_by_default,
    {
        match env_value {
            Some(s) => !str_eq(s.as_str(), "0"),
            None => self.capture_span_trace_by_default,
        }
    }

    /// Applies this hook's filters, in order, to a captured backtrace.
    pub fn filter_frames(&self, frames: Vec<Frame>) -> (r: Vec<Frame>)
        requires
            frames@.len() + 1 <= usize::MAX,
        ensures
            r@ == spec_all_filtered(self.filters@, frames@),
    {
        let ghost orig = frames@;
        let mut cur = frames;
        let mut i: usize = 0;
        proof {
            assert(self.filters@.subrange(0, self.filters@.len() as int) =~= self.filters@);
        }
        while i < self.filters.len()
            invariant
                i <= self.filters@.len(),
                cur@.len() + 1 <= usize::MAX,
                spec_all_filtered(
                    self.filters@.subrange(i as int, self.filters@.len() as int),
                    cur@,
                ) == spec_all_filtered(self.filters@, orig),
            decreases self.filters@.len() - i,
        {
            let ghost rest = self.filters@.subrange(i as int, self.filters@.len() as int);
            proof {
                assert(rest.drop_first() =~= self.filters@.subrange(
                    i as int + 1,
                    self.filters@.len() as int,
                ));
                assert(rest.first() == self.filters@[i as int]);
            }
            let ghost pre = cur@;
            cur = self.filters[i].apply(cur);
            proof {
                lemma_filtered_shrinks(self.filters@[i as int], pre);
            }
            i = i + 1;
        }
        proof {
            assert(self.filters@.subrange(self.filters@.len() as int, self.filters@.len() as int)
                =~= Seq::<FrameFilter>::empty());
        }
        cur
    }
}

/// The report-side hook: what report construction needs from the
/// configuration.
pub struct EyreHook {
    /// Whether to capture span traces when no explicit setting is present.
    pub capture_span_trace_by_default: bool,
    /// Whether rendered reports end with the environment section.
    pub display_env_section: bool,
    /// The issue URL, if issue reporting is enabled.
    pub issue_url: Option<String>,
}

impl EyreHook {
    /// The issue URL, if one was set.
    pub open spec fn issue_url_spec(self) -> Option<Seq<char>> {
        match self.issue_url {
            Some(s) => Some(s@),
            None => None,
        }
    }

    /// Whether a span trace should be captured, given the span-trace
    /// environment setting.
    pub fn spantrace_capture_enabled(&self, env_value: Option<String>) -> (r: bool)
        ensures
            env_value matches Some(s) ==> r == (s@ != "0"@),
            env_value is None ==> r == self.capture_span_trace_by_default,
    {
        match env_value {
            Some(s) => !str_eq(s.as_str(), "0"),
            None => self.capture_span_trace_by_default,
        }
    }

    /// Builds the handler a fresh report carries, from this configuration
    /// and the diagnostics the caller captured.
    pub fn make_handler(&self, backtrace: Option<String>, span_trace: Option<String>) -> (h:
        Handler)
        ensures
            h.backtrace == backtrace,
            h.span_trace == span_trace,
            h.sections@.len() == 0,
            h.display_env_section == self.display_env_section,
    {
        Handler {
            backtrace,
            span_trace,
            sections: Vec::new(),
            display_env_section: self.display_env_section,
        }
    }
}

/// The panic-side hook a process falls back to when none was installed: the
/// default configuration.
pub fn default_printer() -> (h: PanicHook)
    ensures
        h.filters@ == seq![FrameFilter::DefaultFrames, FrameFilter::EyreFrames],
        h.section_spec() is None,
        h.display_env_section,
{
    let (panic_hook, _) = HookBuilder::default().into_hooks();
    panic_hook
}

/// The rendered source location: `file:line`, or a placeholder when
/// unknown.
pub open spec fn spec_location_text(loc: Option<(Seq<char>, u32)>) -> Seq<char> {
    match loc {
        Some((file, line)) => file + ":"@ + crate::fmt::spec_dec(line as nat),
        None => "<unknown>"@,
    }
}

/// Renders a source location.
pub fn location_text(loc: Option<(String, u32)>) -> (s: String)
    ensures
        s@ == spec_location_text(
            match loc {
                Some((file, line)) => Some((file@, line)),
                None => None,
            },
        ),
{
    match loc {
        Some((file, line)) => {
            let mut out = file;
            out.append(":");
            let n = crate::fmt::dec_u64(line as u64);
            out.append(n.as_str());
            out
        },
        None => String::from_str("<unknown>"),
    }
}

/// One rendered backtrace frame: its index, its symbol name, and its
/// source location.
pub open spec fn spec_frame_text(f: Frame) -> Seq<char> {
    crate::fmt::spec_dec(f.n as nat) + ": "@ + (match f.name {
        Some(n) => n@,
        None => "<unknown>"@,
    }) + "\n    at "@ + (match f.filename {
        Some(file) => file@ + ":"@ + (match f.lineno {
            Some(l) => crate::fmt::spec_dec(l as nat),
            None => "<unknown line>"@,
        }),
        None => "<unknown source file>"@,
    })
}

/// Renders one backtrace frame.
fn frame_text(f: &Frame) -> (s: String)
    ensures
        s@ == spec_frame_text(*f),
{
    let mut out = crate::fmt::dec_usize(f.n);
    out.append(": ");
    match &f.name {
        Some(n) => out.append(n.as_str()),
        None => out.append("<unknown>"),
    }
    out.append("\n    at ");
    match &f.filename {
        Some(file) => {
            out.append(file.as_str());
            out.append(":");
            match f.lineno {
                Some(l) => {
                    let n = crate::fmt::dec_u64(l as u64);
                    out.append(n.as_str());
                },
                None => out.append("<unknown line>"),
            }
        },
        None => out.append("<unknown source file>"),
    }
    out
}

/// The marker standing in for a run of hidden frames.
pub open spec fn spec_hidden_marker(k: nat) -> Seq<char> {
    "... "@ + crate::fmt::spec_dec(k) + (if k == 1 {
        " frame hidden ..."@
    } else {
        " frames hidden ..."@
    })
}

/// Renders the hidden-frames marker.
fn hidden_marker(k: usize) -> (s: String)
    ensures
        s@ == spec_hidden_marker(k as nat),
{
    let mut out = String::from_str("... ");
    let n = crate::fmt::dec_usize(k);
    out.append(n.as_str());
    if k == 1 {
        out.append(" frame hidden ...");
    } else {
        out.append(" frames hidden ...");
    }
    out
}

/// The rendered lines of the kept frames, one per frame, with a marker
/// wherever the frame indices show a gap; `last_n` is the index of the
/// frame rendered just before.
pub open spec fn spec_bt_lines(kept: Seq<Frame>, last_n: nat) -> Seq<char>
    decreases kept.len(),
{
    if kept.len() == 0 {
        Seq::empty()
    } else {
        (if kept.first().n > last_n && kept.first().n - last_n > 1 {
            "\n"@ + spec_hidden_marker((kept.first().n - last_n - 1) as nat)
        } else {
            Seq::empty()
        }) + "\n"@ + spec_frame_text(kept.first()) + spec_bt_lines(
            kept.drop_first(),
            kept.first().n as nat,
        )
    }
}

/// Appends the rendered lines of `kept[i..]`.
fn append_bt_lines(kept: &Vec<Frame>, i: usize, last_n: usize, out: &mut String)
    requires
        i <= kept@.len(),
    ensures
        final(out)@ == old(out)@ + spec_bt_lines(
            kept@.subrange(i as int, kept@.len() as int),
            last_n as nat,
        ),
    decreases kept@.len() - i,
{
    let ghost tail = kept@.subrange(i as int, kept@.len() as int);
    if i < kept.len() {
        proof {
            assert(tail.drop_first() =~= kept@.subrange(i as int + 1, kept@.len() as int));
            assert(tail.first() == kept@[i as int]);
        }
        let n = kept[i].n;
        if n > last_n && n - last_n > 1 {
            out.append("\n");
            let marker = hidden_marker(n - last_n - 1);
            out.append(marker.as_str());
        }
        out.append("\n");
        let line = frame_text(&kept[i]);
        out.append(line.as_str());
        append_bt_lines(kept, i + 1, n, out);
        proof {
            assert(out@ =~= old(out)@ + spec_bt_lines(tail, last_n as nat));
        }
    } else {
        proof {
            assert(spec_bt_lines(tail, last_n as nat) =~= Seq::<char>::empty());
            assert(out@ =~= old(out)@ + spec_bt_lines(tail, last_n as nat));
        }
    }
}

/// The heading of a rendered backtrace.
pub open spec fn spec_bt_header() -> Seq<char> {
    "------------------------------- BACKTRACE -------------------------------"@
}

/// The whole rendered backtrace: the heading, then the kept frames with
/// markers for hidden runs, and a trailing marker when filtering hid the
/// deepest frames; an empty backtrace says so.
pub open spec fn spec_format_backtrace(
    filters: Seq<FrameFilter>,
    frames: Seq<Frame>,
    show_hidden: bool,
) -> Seq<char> {
    let kept = if show_hidden {
        frames
    } else {
        spec_all_filtered(filters, frames)
    };
    spec_bt_header() + (if kept.len() == 0 {
        "\n<empty backtrace>"@
    } else {
        spec_bt_lines(kept, 0) + (if frames.len() > 0 && kept.last().n < frames.last().n {
            "\n"@ + spec_hidden_marker((frames.last().n - kept.last().n) as nat)
        } else {
            Seq::empty()
        })
    })
}

impl PanicHook {
    /// Renders a captured backtrace: applies this hook's filters (unless
    /// asked to show everything), then prints the kept frames with markers
    /// for the hidden runs.
    pub fn format_backtrace(&self, frames: Vec<Frame>, show_hidden: bool) -> (s: String)
        requires
            frames@.len() + 1 <= usize::MAX,
        ensures
            s@ == spec_format_backtrace(self.filters@, frames@, show_hidden),
    {
        let last_unfiltered_n: usize = if frames.len() > 0 {
            frames[frames.len() - 1].n
        } else {
            0
        };
        let any_frames = frames.len() > 0;
        let kept = if show_hidden {
            frames
        } else {
            self.filter_frames(frames)
        };
        let mut out = String::from_str(
            "------------------------------- BACKTRACE -------------------------------",
        );
        if kept.len() == 0 {
            out.append("\n<empty backtrace>");
            return out;
        }
        append_bt_lines(&kept, 0, 0, &mut out);
        proof {
            assert(kept@.subrange(0, kept@.len() as int) =~= kept@);
        }
        let last_kept_n = kept[kept.len() - 1].n;
        proof {
            assert(kept@[kept@.len() - 1] == kept@.last());
        }
        if any_frames && last_kept_n < last_unfiltered_n {
            out.append("\n");
            let marker = hidden_marker(last_unfiltered_n - last_kept_n);
            out.append(marker.as_str());
        }
        out
    }

    /// Renders a whole panic report: the headline, the panic message and
    /// location, the custom section if one was set, the captured span trace
    /// and backtrace, and the environment section.
    pub fn panic_report(
        &self,
        payload: &str,
        location: Option<(String, u32)>,
        span_trace: Option<String>,
        frames: Option<Vec<Frame>>,
        show_hidden: bool,
    ) -> (s: String)
        requires
            frames matches Some(f) ==> f@.len() + 1 <= usize::MAX,
        ensures
            s@ == spec_panic_report(
                *self,
                payload@,
                match location {
                    Some((file, line)) => Some((file@, line)),
                    None => None,
                },
                match span_trace {
                    Some(t) => Some(t@),
                    None => None,
                },
                match frames {
                    Some(f) => Some(f@),
                    None => None,
                },
                show_hidden,
            ),
    {
        let bt_captured = frames.is_some();
        let mut out = self.panic_message.clone();
        out.append("\nMessage:  ");
        out.append(payload);
        out.append("\nLocation: ");
        let loc = location_text(location);
        out.append(loc.as_str());
        match &self.section {
            Some(sec) => {
                out.append("\n\n");
                out.append(sec.as_str());
            },
            None => {},
        }
        match &span_trace {
            Some(t) => {
                out.append("\n\n");
                crate::fmt::append_indented(&mut out, t.as_str(), "  ");
            },
            None => {},
        }
        match frames {
            Some(f) => {
                out.append("\n\n");
                let bt = self.format_backtrace(f, show_hidden);
                crate::fmt::append_indented(&mut out, bt.as_str(), "  ");
            },
            None => {},
        }
        if self.display_env_section {
            out.append("\n\n");
            let env = crate::writers::env_section_text(bt_captured);
            out.append(env.as_str());
        }
        out
    }
}

/// The whole rendered panic report.
pub open spec fn spec_panic_report(
    hook: PanicHook,
    payload: Seq<char>,
    location: Option<(Seq<char>, u32)>,
    span_trace: Option<Seq<char>>,
    frames: Option<Seq<Frame>>,
    show_hidden: bool,
) -> Seq<char> {
    hook.panic_message@ + "\nMessage:  "@ + payload + "\nLocation: "@ + spec_location_text(
        location,
    ) + (match hook.section_spec() {
        Some(sec) => "\n\n"@ + sec,
        None => Seq::empty(),
    }) + (match span_trace {
        Some(t) => "\n\n"@ + crate::fmt::spec_indented(t, "  "@),
        None => Seq::empty(),
    }) + (match frames {
        Some(f) => "\n\n"@ + crate::fmt::spec_indented(
            spec_format_backtrace(hook.filters@, f, show_hidden),
            "  "@,
        ),
        None => Seq::empty(),
    }) + (if hook.display_env_section {
        "\n\n"@ + crate::writers::spec_env_section(frames is Some)
    } else {
        Seq::empty()
    })
}

} // verus!
