//! The runtime builder: which sources it compiles, where it writes, the
//! command lines it runs, how it reads the messages of the `ecsact_rtb`
//! tool, and the Rust sources it writes for the crate that uses the runtime.

use vstd::prelude::*;
use vstd::string::StringSliceAdditionalSpecFns;

use crate::json_input::has_long_fraction;
use crate::paths::{
    bare_stem, child_name, diff_paths, dir_part, is_bare_file_name, last_segment, path_file_stem,
    clean_rel, has_dotdot_segment, lemma_relative_path_joins, named_path,
    same_but_separators, path_parent, plain_base, simple_path,
};
use crate::text::{find, occurs_in, str_eq};

verus! {

/// A built runtime library: the methods it makes available and the path of
/// the library file.
#[derive(Debug)]
pub struct EcsactRuntime {
    pub available_methods: Vec<String>,
    pub output: String,
}

impl Default for EcsactRuntime {
    fn default() -> (r: Self)
        ensures
            r.available_methods@ == Seq::<String>::empty(),
            r.output@ == Seq::<char>::empty(),
    {
        EcsactRuntime { available_methods: Vec::new(), output: String::new() }
    }
}

/// The settings of a runtime builder: the Ecsact sources, the directory
/// that receives generated files, and the path of the crate's `lib.rs`.
pub struct BuilderView {
    pub srcs: Seq<Seq<char>>,
    pub output_dir: Seq<char>,
    pub lib_rs_path: Seq<char>,
}

/// Builds an Ecsact runtime from Ecsact source files.
pub struct EcsactRuntimeBuilder {
    srcs: Vec<String>,
    output_dir: String,
    lib_rs_path: String,
}

/// The views of a list of strings.
pub open spec fn views(v: Seq<String>) -> Seq<Seq<char>> {
    v.map_values(|s: String| s@)
}

impl View for EcsactRuntimeBuilder {
    type V = BuilderView;

    closed spec fn view(&self) -> BuilderView {
        BuilderView {
            srcs: views(self.srcs@),
            output_dir: self.output_dir@,
            lib_rs_path: self.lib_rs_path@,
        }
    }
}

/// The settings of a new builder: no sources, output to `ecsact_rtb_out`,
/// the crate root at `src/lib.rs`.
pub open spec fn default_builder() -> BuilderView {
    BuilderView { srcs: Seq::empty(), output_dir: "ecsact_rtb_out"@, lib_rs_path: "src/lib.rs"@ }
}

impl Default for EcsactRuntimeBuilder {
    fn default() -> (r: Self)
        ensures
            r@ == default_builder(),
    {
        let r = EcsactRuntimeBuilder {
            srcs: Vec::new(),
            output_dir: String::from_str("ecsact_rtb_out"),
            lib_rs_path: String::from_str("src/lib.rs"),
        };
        assert(r@.srcs =~= Seq::<Seq<char>>::empty());
        r
    }
}

impl EcsactRuntime {
    /// A builder with the default settings.
    pub fn builder() -> (r: EcsactRuntimeBuilder)
        ensures
            r@ == default_builder(),
    {
        EcsactRuntimeBuilder::default()
    }
}

impl EcsactRuntimeBuilder {
    /// Adds an Ecsact source file.
    pub fn src(&mut self, src: &str) -> (r: &mut EcsactRuntimeBuilder)
        ensures
            r@ == (BuilderView { srcs: old(self)@.srcs.push(src@), ..old(self)@ }),
            final(self)@ == final(r)@,
    {
        self.srcs.push(String::from_str(src));
        assert(views(self.srcs@) =~= views(old(self).srcs@).push(src@));
        self
    }

    /// The Ecsact source files, in the order added.
    pub fn sources(&self) -> (r: &Vec<String>)
        ensures
            views(r@) == self@.srcs,
    {
        &self.srcs
    }

    /// The directory that receives the generated files.
    pub fn output_dir_path(&self) -> (r: &str)
        ensures
            r@ == self@.output_dir,
    {
        self.output_dir.as_str()
    }

    /// The path of the crate's `lib.rs`.
    pub fn lib_rs_file(&self) -> (r: &str)
        ensures
            r@ == self@.lib_rs_path,
    {
        self.lib_rs_path.as_str()
    }

    /// Sets the directory that receives the generated files.
    pub fn output_dir(&mut self, output_dir: &str)
        ensures
            final(self)@ == (BuilderView { output_dir: output_dir@, ..old(self)@ }),
    {
        self.output_dir = String::from_str(output_dir);
    }

    /// Sets the path of the crate's `lib.rs`.
    pub fn lib_rs_path(&mut self, lib_rs_path: &str)
        ensures
            final(self)@ == (BuilderView { lib_rs_path: lib_rs_path@, ..old(self)@ }),
    {
        self.lib_rs_path = String::from_str(lib_rs_path);
    }
}

/// The codegen plugin that writes Rust sources.
pub open spec fn rust_plugin_path() -> Seq<char> {
    "../target/debug/ecsact_rust_source_codegen.dll"@
}

/// `a` followed by `b`.
fn cat(a: &str, b: &str) -> (r: String)
    ensures
        r@ == a@ + b@,
{
    let mut r = String::from_str(a);
    r.append(b);
    r
}

/// The arguments of the `ecsact codegen` run that writes the Rust sources
/// of the Ecsact files.
pub open spec fn codegen_args_spec(b: BuilderView) -> Seq<Seq<char>> {
    seq!["codegen"@] + b.srcs + seq!["-p"@, rust_plugin_path(), "-o"@, b.output_dir]
}

/// The path of the Rust source generated from the Ecsact file `src`.
pub open spec fn generated_source_path(output_dir: Seq<char>, src: Seq<char>) -> Seq<char> {
    output_dir + "/"@ + src + ".rs"@
}

impl EcsactRuntimeBuilder {
    /// The arguments for `ecsact`: `codegen`, the sources, the Rust plugin
    /// (`-p`) and the output directory (`-o`).
    pub fn codegen_args(&self) -> (r: Vec<String>)
        ensures
            views(r@) == codegen_args_spec(self@),
    {
        let mut r: Vec<String> = Vec::new();
        r.push(String::from_str("codegen"));
        let mut i: usize = 0;
        while i < self.srcs.len()
            invariant
                i <= self.srcs.len(),
                views(r@) == seq!["codegen"@] + views(self.srcs@).take(i as int),
            decreases self.srcs.len() - i,
        {
            let ghost before = r@;
            r.push(self.srcs[i].clone());
            assert(views(r@) =~= views(before).push(self.srcs@[i as int]@));
            assert(views(self.srcs@).take(i + 1) =~= views(self.srcs@).take(i as int).push(
                self.srcs@[i as int]@,
            ));
            assert(views(r@) =~= seq!["codegen"@] + views(self.srcs@).take(i + 1));
            i = i + 1;
        }
        r.push(String::from_str("-p"));
        r.push(String::from_str("../target/debug/ecsact_rust_source_codegen.dll"));
        r.push(String::from_str("-o"));
        r.push(self.output_dir.clone());
        assert(views(self.srcs@).take(self.srcs.len() as int) =~= views(self.srcs@));
        assert(views(r@) =~= codegen_args_spec(self@));
        r
    }

    /// The Rust sources that `ecsact codegen` writes, one per Ecsact file,
    /// which are then formatted.
    pub fn generated_sources(&self) -> (r: Vec<String>)
        ensures
            views(r@) == self@.srcs.map_values(|s: Seq<char>| generated_source_path(self@.output_dir, s)),
    {
        proof {
            reveal_strlit("/");
            reveal_strlit(".rs");
        }
        let mut r: Vec<String> = Vec::new();
        let mut i: usize = 0;
        while i < self.srcs.len()
            invariant
                i <= self.srcs.len(),
                views(r@) == views(self.srcs@).take(i as int).map_values(
                    |s: Seq<char>| generated_source_path(self.output_dir@, s),
                ),
            decreases self.srcs.len() - i,
        {
            let mut p = cat(self.output_dir.as_str(), "/");
            p.append(self.srcs[i].as_str());
            p.append(".rs");
            let ghost before = r@;
            r.push(p);
            assert(views(r@) =~= views(before).push(p@));
            assert(views(r@) =~= views(self.srcs@).take(i + 1).map_values(
                |s: Seq<char>| generated_source_path(self.output_dir@, s),
            ));
            i = i + 1;
        }
        assert(views(self.srcs@).take(self.srcs.len() as int) =~= views(self.srcs@));
        r
    }

    /// The file that receives the generated C bindings.
    pub fn bindings_output_path(&self) -> (r: String)
        ensures
            r@ == self@.output_dir + "/bindings.generated.rs"@,
    {
        cat(self.output_dir.as_str(), "/bindings.generated.rs")
    }

    /// The path at which the template file `file_name` is written.
    pub fn template_output_path(&self, file_name: &str) -> (r: String)
        ensures
            r@ == self@.output_dir + "/"@ + file_name@,
    {
        let mut p = cat(self.output_dir.as_str(), "/");
        p.append(file_name);
        p
    }

    /// The arguments for `ecsact_rtb`: the sources, then the library to
    /// write (`--output=`) and the temporary directory (`--temp_dir=`).
    pub fn rtb_args(&self, out_rt: &str, out_tmp: &str) -> (r: Vec<String>)
        ensures
            views(r@) == self@.srcs + seq!["--output="@ + out_rt@, "--temp_dir="@ + out_tmp@],
    {
        let mut r: Vec<String> = Vec::new();
        let mut i: usize = 0;
        while i < self.srcs.len()
            invariant
                i <= self.srcs.len(),
                views(r@) == views(self.srcs@).take(i as int),
            decreases self.srcs.len() - i,
        {
            let ghost before = r@;
            r.push(self.srcs[i].clone());
            assert(views(r@) =~= views(before).push(self.srcs@[i as int]@));
            assert(views(r@) =~= views(self.srcs@).take(i + 1));
            i = i + 1;
        }
        r.push(cat("--output=", out_rt));
        r.push(cat("--temp_dir=", out_tmp));
        assert(views(self.srcs@).take(self.srcs.len() as int) =~= views(self.srcs@));
        assert(views(r@) =~= self@.srcs + seq!["--output="@ + out_rt@, "--temp_dir="@ + out_tmp@]);
        r
    }
}

/// The runtime library that `ecsact_rtb` builds for the crate `crate_name`
/// under `out_dir`.
pub fn runtime_output_path(out_dir: &str, crate_name: &str) -> (r: String)
    ensures
        r@ == out_dir@ + "/runtime/"@ + crate_name@ + "_ecsact_rt.dll"@,
{
    let mut p = cat(out_dir, "/runtime/");
    p.append(crate_name);
    p.append("_ecsact_rt.dll");
    p
}

/// The temporary directory `ecsact_rtb` works in under `out_dir`.
pub fn runtime_temp_dir(out_dir: &str) -> (r: String)
    ensures
        r@ == out_dir@ + "/tmp"@,
{
    cat(out_dir, "/tmp")
}

/// A method reported by `ecsact_rtb`: its name and whether it is available
/// (`None` where the report does not say so with a boolean).
pub struct RtbMethod {
    pub method_name: String,
    pub available: Option<bool>,
}

/// A message of `ecsact_rtb` (one JSON object per line of its output), as
/// far as the builder reads it: the `type` (where it is a string), the
/// `content`, `line` and `methods` members, and the whole object as JSON.
pub struct RtbMessage {
    pub msg_type: Option<String>,
    pub content: String,
    pub line: String,
    pub methods: Vec<RtbMethod>,
    pub dump: String,
}

/// The plain contents of an `ecsact_rtb` message.
pub struct RtbMessageView {
    pub msg_type: Option<Seq<char>>,
    pub content: Seq<char>,
    pub line: Seq<char>,
    pub methods: Seq<(Seq<char>, Option<bool>)>,
    pub dump: Seq<char>,
}

impl View for RtbMethod {
    type V = (Seq<char>, Option<bool>);

    open spec fn view(&self) -> (Seq<char>, Option<bool>) {
        (self.method_name@, self.available)
    }
}

impl View for RtbMessage {
    type V = RtbMessageView;

    open spec fn view(&self) -> RtbMessageView {
        RtbMessageView {
            msg_type: match self.msg_type {
                Some(t) => Some(t@),
                None => None,
            },
            content: self.content@,
            line: self.line@,
            methods: self.methods@.map_values(|m: RtbMethod| m@),
            dump: self.dump@,
        }
    }
}

/// The message that a line of `ecsact_rtb` output holds: `None` where the
/// line is not a JSON object.
pub uninterp spec fn json_rtb_message(line: Seq<char>) -> Option<RtbMessageView>;

/// The view of an optional message.
pub open spec fn message_view(m: Option<RtbMessage>) -> Option<RtbMessageView> {
    match m {
        Some(m) => Some(m@),
        None => None,
    }
}

/// `json::parse`, then reading the members the builder uses. Claimed: the
/// result is a function of the line alone, `None` exactly where the line is
/// not a JSON object. What a member holds is named, not stated. The parser
/// panics on a number with more fractional digits than its exponent can
/// count, so such lines are left out.
#[verifier::external_body]
fn parse_rtb_message(line: &str) -> (r: Option<RtbMessage>)
    requires
        !has_long_fraction(line.spec_bytes()),
    ensures
        message_view(r) == json_rtb_message(line@),
{
    match json::parse(line) {
        Ok(json::JsonValue::Object(msg)) => Some(RtbMessage {
            msg_type: msg["type"].as_str().map(String::from),
            content: msg["content"].to_string(),
            line: msg["line"].to_string(),
            methods: msg["methods"].members().map(|m| RtbMethod {
                method_name: m["method_name"].to_string(),
                available: m["available"].as_bool(),
            }).collect(),
            dump: msg.dump(),
        }),
        _ => None,
    }
}

/// What the builder does on a message of `ecsact_rtb` it accepts.
pub enum RtbAction {
    /// Print this line (a `cargo:` directive or a message for the user).
    Print(String),
    /// Nothing to print.
    Nothing,
}

/// The plain contents of an action.
pub enum RtbActionView {
    Print(Seq<char>),
    Nothing,
}

impl View for RtbAction {
    type V = RtbActionView;

    open spec fn view(&self) -> RtbActionView {
        match self {
            RtbAction::Print(s) => RtbActionView::Print(s@),
            RtbAction::Nothing => RtbActionView::Nothing,
        }
    }
}

/// Why the builder stops on a line of `ecsact_rtb` output.
pub enum RtbRefusal {
    /// Stop the build with this message.
    Failed(String),
    /// Stop the build: the message has no string `type`.
    MissingType,
}

/// The plain contents of a refusal.
pub enum RtbRefusalView {
    Failed(Seq<char>),
    MissingType,
}

impl View for RtbRefusal {
    type V = RtbRefusalView;

    open spec fn view(&self) -> RtbRefusalView {
        match self {
            RtbRefusal::Failed(s) => RtbRefusalView::Failed(s@),
            RtbRefusal::MissingType => RtbRefusalView::MissingType,
        }
    }
}

/// The message with which the build stops on output that is not a JSON
/// object.
pub open spec fn invalid_output_message() -> Seq<char> {
    "Invalid output from Ecsact RTB. May be a bug with the ecsact_rtb crate or the wrong version of ecsact_rtb is being used."@
}

/// The names of the methods reported available, in the order reported.
pub open spec fn available_names(methods: Seq<(Seq<char>, Option<bool>)>) -> Seq<Seq<char>>
    decreases methods.len(),
{
    if methods.len() == 0 {
        Seq::empty()
    } else {
        available_names(methods.drop_last()) + (if methods.last().1 == Some(true) {
            seq![methods.last().0]
        } else {
            Seq::empty()
        })
    }
}

/// Why the builder stops on a message, if it does: it has no string
/// `type`, or its type is `error` or `alert` (stopping with its `content`).
pub open spec fn message_refusal(m: RtbMessageView) -> Option<RtbRefusalView> {
    match m.msg_type {
        None => Some(RtbRefusalView::MissingType),
        Some(t) => if t == "error"@ || t == "alert"@ {
            Some(RtbRefusalView::Failed(m.content))
        } else {
            None
        },
    }
}

/// Why the builder stops on a line, if it does: the line is not a JSON
/// object, or its message is refused.
pub open spec fn line_refusal(msg: Option<RtbMessageView>) -> Option<RtbRefusalView> {
    match msg {
        None => Some(RtbRefusalView::Failed(invalid_output_message())),
        Some(m) => message_refusal(m),
    }
}

/// What the builder does on a message it accepts.
pub open spec fn rtb_action(m: RtbMessageView) -> RtbActionView {
    match m.msg_type {
        None => RtbActionView::Nothing,
        Some(t) => if t == "info"@ || t == "success"@ {
            RtbActionView::Print(m.content)
        } else if t == "subcommand_start"@ || t == "subcommand_end"@ || t == "subcommand_stdout"@
            || t == "module_methods"@ {
            RtbActionView::Nothing
        } else if t == "subcommand_stderr"@ {
            RtbActionView::Print("cargo:warning="@ + m.line)
        } else if t == "warning"@ {
            RtbActionView::Print("cargo:warning="@ + m.content)
        } else {
            RtbActionView::Print("cargo:warning='"@ + t + "' message not implemented: "@ + m.dump)
        },
    }
}

/// The available methods after a message: a `module_methods` message adds
/// the names of the methods it reports available; no other message changes
/// them.
pub open spec fn methods_after(methods: Seq<Seq<char>>, m: RtbMessageView) -> Seq<Seq<char>> {
    if m.msg_type == Some("module_methods"@) {
        methods + available_names(m.methods)
    } else {
        methods
    }
}

fn str_of(s: &str) -> (r: String)
    ensures
        r@ == s@,
{
    String::from_str(s)
}

/// Why the builder stops on the message `msg`, if it does.
pub fn message_refusal_of(msg: &RtbMessage) -> (r: Option<RtbRefusal>)
    ensures
        match r {
            Some(e) => message_refusal(msg@) == Some(e@),
            None => message_refusal(msg@) is None,
        },
{
    proof {
        reveal_strlit("error");
        reveal_strlit("alert");
    }
    match &msg.msg_type {
        None => Some(RtbRefusal::MissingType),
        Some(t) => {
            if str_eq(t.as_str(), "error") || str_eq(t.as_str(), "alert") {
                Some(RtbRefusal::Failed(msg.content.clone()))
            } else {
                None
            }
        },
    }
}

/// Acts on one message of `ecsact_rtb` that the builder accepts (one with a
/// string `type` other than `error` and `alert`), adding to `runtime` the
/// methods a `module_methods` message reports available.
pub fn handle_rtb_message(runtime: &mut EcsactRuntime, msg: RtbMessage) -> (r: RtbAction)
    requires
        message_refusal(msg@) is None,
    ensures
        r@ == rtb_action(msg@),
        views(final(runtime).available_methods@) == methods_after(
            views(old(runtime).available_methods@),
            msg@,
        ),
        final(runtime).output == old(runtime).output,
{
    proof {
        reveal_strlit("info");
        reveal_strlit("success");
        reveal_strlit("subcommand_start");
        reveal_strlit("subcommand_end");
        reveal_strlit("subcommand_stdout");
        reveal_strlit("subcommand_stderr");
        reveal_strlit("module_methods");
        reveal_strlit("warning");
        assert("subcommand_end"@[0] != "module_methods"@[0]);
        assert("warning"@[0] != "success"@[0]);
        assert("subcommand_stderr"@[14] != "subcommand_stdout"@[14]);
        reveal_strlit("cargo:warning=");
        reveal_strlit("cargo:warning='");
        reveal_strlit("' message not implemented: ");
    }
    let m = msg;
    let ghost mv = m@;
    let t = match &m.msg_type {
        None => {
            return RtbAction::Nothing;
        },
        Some(t) => t.as_str(),
    };
    if str_eq(t, "info") || str_eq(t, "success") {
        RtbAction::Print(m.content)
    } else if str_eq(t, "subcommand_start") || str_eq(t, "subcommand_end") || str_eq(
        t,
        "subcommand_stdout",
    ) {
        RtbAction::Nothing
    } else if str_eq(t, "subcommand_stderr") {
        let mut out = str_of("cargo:warning=");
        out.append(m.line.as_str());
        RtbAction::Print(out)
    } else if str_eq(t, "module_methods") {
        let ghost start = views(runtime.available_methods@);
        let ghost output = runtime.output;
        let mut i: usize = 0;
        while i < m.methods.len()
            invariant
                i <= m.methods.len(),
                runtime.output == output,
                mv == m@,
                views(runtime.available_methods@) == start + available_names(
                    mv.methods.take(i as int),
                ),
            decreases m.methods.len() - i,
        {
            let ghost before = runtime.available_methods@;
            let ghost prefix = mv.methods.take(i as int);
            assert(mv.methods.take(i + 1).drop_last() =~= prefix);
            if m.methods[i].available == Some(true) {
                runtime.available_methods.push(m.methods[i].method_name.clone());
                assert(views(runtime.available_methods@) =~= views(before).push(
                    m.methods@[i as int].method_name@,
                ));
            }
            assert(views(runtime.available_methods@) =~= start + available_names(
                mv.methods.take(i + 1),
            ));
            i = i + 1;
        }
        assert(mv.methods.take(m.methods.len() as int) =~= mv.methods);
        RtbAction::Nothing
    } else if str_eq(t, "warning") {
        let mut out = str_of("cargo:warning=");
        out.append(m.content.as_str());
        RtbAction::Print(out)
    } else {
        let mut out = str_of("cargo:warning='");
        out.append(t);
        out.append("' message not implemented: ");
        out.append(m.dump.as_str());
        RtbAction::Print(out)
    }
}

/// Reads one line of `ecsact_rtb` output that the builder accepts (a JSON
/// object whose message is accepted) and acts on its message.
pub fn handle_rtb_line(runtime: &mut EcsactRuntime, line: &str) -> (r: RtbAction)
    requires
        !has_long_fraction(line.spec_bytes()),
        line_refusal(json_rtb_message(line@)) is None,
    ensures
        r@ == rtb_action(json_rtb_message(line@).unwrap()),
        views(final(runtime).available_methods@) == methods_after(
            views(old(runtime).available_methods@),
            json_rtb_message(line@).unwrap(),
        ),
        final(runtime).output == old(runtime).output,
{
    let msg = parse_rtb_message(line).unwrap();
    handle_rtb_message(runtime, msg)
}

/// Reads one line of `ecsact_rtb` output: where the builder stops on it,
/// says why and leaves `runtime` as it is; otherwise acts on its message.
pub fn try_handle_rtb_line(runtime: &mut EcsactRuntime, line: &str) -> (r: Result<
    RtbAction,
    RtbRefusal,
>)
    requires
        !has_long_fraction(line.spec_bytes()),
    ensures
        match r {
            Ok(a) => line_refusal(json_rtb_message(line@)) is None && a@ == rtb_action(
                json_rtb_message(line@).unwrap(),
            ) && views(final(runtime).available_methods@) == methods_after(
                views(old(runtime).available_methods@),
                json_rtb_message(line@).unwrap(),
            ),
            Err(e) => line_refusal(json_rtb_message(line@)) == Some(e@)
                && final(runtime).available_methods@ == old(runtime).available_methods@,
        },
        final(runtime).output == old(runtime).output,
{
    proof {
        reveal_strlit("Invalid output from Ecsact RTB. May be a bug with the ecsact_rtb crate or the wrong version of ecsact_rtb is being used.");
    }
    match parse_rtb_message(line) {
        None => Err(
            RtbRefusal::Failed(
                str_of(
                    "Invalid output from Ecsact RTB. May be a bug with the ecsact_rtb crate or the wrong version of ecsact_rtb is being used.",
                ),
            ),
        ),
        Some(msg) => match message_refusal_of(&msg) {
            Some(e) => Err(e),
            None => Ok(handle_rtb_line(runtime, line)),
        },
    }
}

/// Only `module_methods` messages change the available methods, and they
/// only add to the end of the list: what was available stays available.
pub proof fn lemma_methods_only_grow(methods: Seq<Seq<char>>, m: RtbMessageView)
    ensures
        methods_after(methods, m).subrange(0, methods.len() as int) == methods,
        m.msg_type != Some("module_methods"@) ==> methods_after(methods, m) == methods,
{
    assert(methods_after(methods, m).subrange(0, methods.len() as int) =~= methods);
}

/// An `error` or `alert` message, and output that is not a JSON object,
/// always stop the build; an `error` or `alert` stops it with the message's
/// content.
pub proof fn lemma_errors_stop_the_build(msg: Option<RtbMessageView>)
    requires
        msg matches Some(m) ==> (m.msg_type == Some("error"@) || m.msg_type == Some("alert"@)),
    ensures
        line_refusal(msg) is Some,
        msg matches Some(m) ==> line_refusal(msg) == Some(RtbRefusalView::Failed(m.content)),
{
}

/// The line that includes the Rust source `file_name` generated under
/// `output_dir_rel`.
pub open spec fn include_line(output_dir_rel: Seq<char>, file_name: Seq<char>) -> Seq<char> {
    "include!(r\""@ + output_dir_rel + "/"@ + file_name + "\");\n"@
}

/// The include lines of the generated Rust sources, in order.
pub open spec fn modules_text(output_dir_rel: Seq<char>, file_names: Seq<Seq<char>>) -> Seq<char>
    decreases file_names.len(),
{
    if file_names.len() == 0 {
        Seq::empty()
    } else {
        modules_text(output_dir_rel, file_names.drop_last()) + include_line(
            output_dir_rel,
            file_names.last(),
        )
    }
}

/// Writes one include line per generated Rust source; `output_dir_rel` is
/// the output directory relative to the crate's `lib.rs`.
pub fn generated_modules(output_dir_rel: &str, file_names: &Vec<String>) -> (r: String)
    ensures
        r@ == modules_text(output_dir_rel@, views(file_names@)),
{
    proof {
        reveal_strlit("include!(r\"");
        reveal_strlit("/");
        reveal_strlit("\");\n");
    }
    let mut r = String::new();
    let mut i: usize = 0;
    while i < file_names.len()
        invariant
            i <= file_names.len(),
            r@ == modules_text(output_dir_rel@, views(file_names@).take(i as int)),
        decreases file_names.len() - i,
    {
        assert(views(file_names@).take(i + 1).drop_last() =~= views(file_names@).take(i as int));
        r.append("include!(r\"");
        r.append(output_dir_rel);
        r.append("/");
        r.append(file_names[i].as_str());
        r.append("\");\n");
        i = i + 1;
    }
    assert(views(file_names@).take(file_names.len() as int) =~= views(file_names@));
    r
}

/// The crate root written for a crate that uses the runtime: the bindings,
/// `core` and `system_execution_context` modules from `output_dir`, then the
/// generated modules.
pub open spec fn crate_lib_text(output_dir: Seq<char>, generated_modules: Seq<char>) -> Seq<char> {
    "// Generated by the ecsact_rtb crate. Do not edit.\r\n\r\n#[allow(non_upper_case_globals)]\r\n#[allow(dead_code)]\r\n#[allow(non_camel_case_types)]\r\nmod bindings {\r\n\tinclude!(r\""@
        + output_dir + "/bindings.generated.rs\");\r\n}\r\n\r\npub mod core {\r\n\tinclude!(r\""@
        + output_dir + "/core.rs\");\r\n}\r\n\r\npub mod system_execution_context {\r\n\tinclude!(r\""@
        + output_dir + "/system_execution_context.rs\");\r\n}\r\n\r\n// Modules generated from .ecsact files\r\n\r\n"@
        + generated_modules + "\r\n\r\n"@
}

/// Writes the crate root for a crate that uses the runtime.
pub fn crate_lib_source(output_dir: &str, generated_modules: &str) -> (r: String)
    ensures
        r@ == crate_lib_text(output_dir@, generated_modules@),
{
    let mut r = String::from_str(
        "// Generated by the ecsact_rtb crate. Do not edit.\r\n\r\n#[allow(non_upper_case_globals)]\r\n#[allow(dead_code)]\r\n#[allow(non_camel_case_types)]\r\nmod bindings {\r\n\tinclude!(r\"",
    );
    r.append(output_dir);
    r.append(
        "/bindings.generated.rs\");\r\n}\r\n\r\npub mod core {\r\n\tinclude!(r\"",
    );
    r.append(output_dir);
    r.append(
        "/core.rs\");\r\n}\r\n\r\npub mod system_execution_context {\r\n\tinclude!(r\"",
    );
    r.append(output_dir);
    r.append(
        "/system_execution_context.rs\");\r\n}\r\n\r\n// Modules generated from .ecsact files\r\n\r\n",
    );
    r.append(generated_modules);
    r.append("\r\n\r\n");
    r
}

impl EcsactRuntimeBuilder {
    /// The crate root for a crate that uses the runtime, given the absolute
    /// output directory, the absolute directory of `lib.rs` and the names
    /// of the generated Rust sources: the relative path from the `lib.rs`
    /// directory to the output directory, with the text written to
    /// `lib.rs`; `None` where no relative path leads there. There is one
    /// between two plain directories that are both rooted or both relative,
    /// where the `lib.rs` directory has no `..` segment (`/p/src` to
    /// `/p/out` gives `../out` with the platform's separator). Where the two
    /// directories are the same, the relative path is empty; where the
    /// output directory lies under a plain `lib.rs` directory by plain
    /// segments, it is that remainder (`/p/src` to `/p/src/gen/ecsact` gives
    /// `gen/ecsact`, with the platform's separator), so that the `lib.rs`
    /// directory, a `/` and the relative path lead to the output directory.
    pub fn lib_rs_source(
        &self,
        output_dir_abs: &str,
        lib_rs_dir_abs: &str,
        file_names: &Vec<String>,
    ) -> (r: Option<(String, String)>)
        ensures
            r matches Some((rel, src)) ==> src@ == crate_lib_text(
                rel@,
                modules_text(rel@, views(file_names@)),
            ),
            output_dir_abs@ == lib_rs_dir_abs@ ==> (r matches Some((rel, _)) && rel@
                == Seq::<char>::empty()),
            plain_base(lib_rs_dir_abs@) && child_name(output_dir_abs@, lib_rs_dir_abs@) is Some
                && is_bare_file_name(child_name(output_dir_abs@, lib_rs_dir_abs@).unwrap()) ==> (
            r matches Some((rel, _)) && rel@ == child_name(output_dir_abs@, lib_rs_dir_abs@).unwrap()),
            plain_base(lib_rs_dir_abs@) && plain_base(output_dir_abs@) && (output_dir_abs@[0] == '/')
                == (lib_rs_dir_abs@[0] == '/') && !has_dotdot_segment(lib_rs_dir_abs@) ==> r is Some,
            plain_base(lib_rs_dir_abs@) && child_name(output_dir_abs@, lib_rs_dir_abs@) is Some
                && clean_rel(child_name(output_dir_abs@, lib_rs_dir_abs@).unwrap()) ==> (
            r matches Some((rel, _)) && same_but_separators(
                rel@,
                child_name(output_dir_abs@, lib_rs_dir_abs@).unwrap(),
            ) && same_but_separators(lib_rs_dir_abs@ + "/"@ + rel@, output_dir_abs@)),
    {
        match diff_paths(output_dir_abs, lib_rs_dir_abs) {
            Some(rel) => {
                proof {
                    if plain_base(lib_rs_dir_abs@) && child_name(
                        output_dir_abs@,
                        lib_rs_dir_abs@,
                    ) is Some && clean_rel(child_name(output_dir_abs@, lib_rs_dir_abs@).unwrap()) {
                        let t = child_name(output_dir_abs@, lib_rs_dir_abs@).unwrap();
                        lemma_relative_path_joins(lib_rs_dir_abs@, rel@, t);
                        assert(lib_rs_dir_abs@ + "/"@ + t =~= output_dir_abs@) by {
                            reveal_strlit("/");
                        }
                    }
                }
                let modules = generated_modules(rel.as_str(), file_names);
                let src = crate_lib_source(rel.as_str(), modules.as_str());
                Some((rel, src))
            },
            None => None,
        }
    }
}

/// The `cargo:cfg` directive of each available method.
pub fn cfg_directives(runtime: &EcsactRuntime) -> (r: Vec<String>)
    ensures
        views(r@) == views(runtime.available_methods@).map_values(|m: Seq<char>| "cargo:cfg="@ + m),
{
    let mut r: Vec<String> = Vec::new();
    let mut i: usize = 0;
    while i < runtime.available_methods.len()
        invariant
            i <= runtime.available_methods.len(),
            views(r@) == views(runtime.available_methods@).take(i as int).map_values(
                |m: Seq<char>| "cargo:cfg="@ + m,
            ),
        decreases runtime.available_methods.len() - i,
    {
        let ghost before = r@;
        let d = cat("cargo:cfg=", runtime.available_methods[i].as_str());
        r.push(d);
        assert(views(r@) =~= views(before).push(d@));
        assert(views(r@) =~= views(runtime.available_methods@).take(i + 1).map_values(
            |m: Seq<char>| "cargo:cfg="@ + m,
        ));
        i = i + 1;
    }
    assert(views(runtime.available_methods@).take(runtime.available_methods.len() as int)
        =~= views(runtime.available_methods@));
    r
}

/// Whether the crate links the runtime library: on every target but
/// WebAssembly (a target whose name holds `wasm`).
pub fn links_runtime_library(target: &str) -> (r: bool)
    ensures
        r == !occurs_in(target@, "wasm"@),
{
    find(target, "wasm").is_none()
}

/// The directives that link the runtime library `output_file_no_ext` found
/// in `output_dir`.
pub fn link_directives(output_dir: &str, output_file_no_ext: &str) -> (r: Vec<String>)
    ensures
        views(r@) == seq![
            "cargo:rustc-link-search="@ + output_dir@,
            "cargo:rustc-link-lib="@ + output_file_no_ext@,
        ],
{
    let mut r: Vec<String> = Vec::new();
    r.push(cat("cargo:rustc-link-search=", output_dir));
    r.push(cat("cargo:rustc-link-lib=", output_file_no_ext));
    assert(views(r@) =~= seq![
        "cargo:rustc-link-search="@ + output_dir@,
        "cargo:rustc-link-lib="@ + output_file_no_ext@,
    ]);
    r
}

/// The include directory that the JSON output of `ecsact config` names
/// (its `include_dir` member): `None` where the text is not JSON or the
/// member is not a string.
pub uninterp spec fn json_include_dir(config: Seq<char>) -> Option<Seq<char>>;

/// `json::parse`, then the `include_dir` member as a string. Claimed: the
/// result is a function of the text alone. The parser panics on a number
/// with more fractional digits than its exponent can count, so such text is
/// left out.
#[verifier::external_body]
fn config_include_dir(config: &str) -> (r: Option<String>)
    requires
        !has_long_fraction(config.spec_bytes()),
    ensures
        match r {
            Some(dir) => json_include_dir(config@) == Some(dir@),
            None => json_include_dir(config@) is None,
        },
{
    json::parse(config).ok().and_then(|c| c["include_dir"].as_str().map(String::from))
}

/// The clang arguments for generating the runtime's bindings.
pub open spec fn clang_args_spec(include_dir: Seq<char>) -> Seq<Seq<char>> {
    seq!["--target=wasm32-unknown-unknown"@, "-I"@ + include_dir]
}

/// The clang arguments for generating bindings against the SDK headers in
/// `include_dir`: a WebAssembly target and that directory.
fn clang_args_for(include_dir: &str) -> (r: Vec<String>)
    ensures
        views(r@) == clang_args_spec(include_dir@),
{
    let mut args: Vec<String> = Vec::new();
    args.push(String::from_str("--target=wasm32-unknown-unknown"));
    args.push(cat("-I", include_dir));
    assert(views(args@) =~= clang_args_spec(include_dir@));
    args
}

/// The clang arguments for generating the runtime's bindings, from the
/// output of `ecsact config`, which names the SDK's include directory: a
/// WebAssembly target and that directory.
pub fn bindings_clang_args(config: &str) -> (r: Vec<String>)
    requires
        !has_long_fraction(config.spec_bytes()),
        json_include_dir(config@) is Some,
    ensures
        views(r@) == clang_args_spec(json_include_dir(config@).unwrap()),
{
    let dir = config_include_dir(config).unwrap();
    clang_args_for(dir.as_str())
}

/// The clang arguments for generating the runtime's bindings, where the
/// output of `ecsact config` names an include directory; `None` where it
/// does not.
pub fn try_bindings_clang_args(config: &str) -> (r: Option<Vec<String>>)
    requires
        !has_long_fraction(config.spec_bytes()),
    ensures
        match r {
            Some(args) => json_include_dir(config@) is Some && views(args@) == clang_args_spec(
                json_include_dir(config@).unwrap(),
            ),
            None => json_include_dir(config@) is None,
        },
{
    match config_include_dir(config) {
        Some(_) => Some(bindings_clang_args(config)),
        None => None,
    }
}

/// Whether `name` is a name the Rust source generated from the Ecsact file
/// `src` can have: a non-empty part of `src` (its file stem), followed by
/// `.ecsact.rs`.
pub open spec fn is_generated_name(src: Seq<char>, name: Seq<char>) -> bool {
    exists|stem: Seq<char>|
        #![trigger occurs_in(src, stem)]
        name == stem + ".ecsact.rs"@ && occurs_in(src, stem) && stem.len() > 0
}

/// The name of the Rust source generated from the Ecsact file at the named
/// path `src`: the stem of its file name with the extension `ecsact.rs`.
pub open spec fn generated_name_of(src: Seq<char>) -> Seq<char> {
    bare_stem(last_segment(src)) + ".ecsact.rs"@
}

/// The file name of the Rust source generated from the Ecsact file `src`:
/// its file stem with the extension `ecsact.rs` (`src/example.ecsact` gives
/// `example.ecsact.rs`); `None` where `src` has no file name.
pub fn generated_file_name(src: &str) -> (r: Option<String>)
    ensures
        r is Some ==> is_generated_name(src@, r.unwrap()@),
        named_path(src@) ==> r is Some && r.unwrap()@ == generated_name_of(src@),
{
    match path_file_stem(src) {
        Some(stem) => {
            let name = cat(stem.as_str(), ".ecsact.rs");
            assert(occurs_in(src@, stem@));
            Some(name)
        },
        None => None,
    }
}

impl EcsactRuntimeBuilder {
    /// The file names of the Rust sources generated from the Ecsact files,
    /// in order; `None` where one of them has no file name. Where every
    /// source is a named path, each name is the stem of its file name with
    /// the extension `ecsact.rs`.
    pub fn generated_file_names(&self) -> (r: Option<Vec<String>>)
        ensures
            (forall|i: int| 0 <= i < self@.srcs.len() ==> named_path(#[trigger] self@.srcs[i]))
                ==> r is Some,
            r is Some ==> r.unwrap()@.len() == self@.srcs.len(),
            r is Some ==> forall|i: int|
                0 <= i < self@.srcs.len() ==> is_generated_name(
                    self@.srcs[i],
                    #[trigger] r.unwrap()@[i]@,
                ),
            r is Some ==> forall|i: int|
                0 <= i < self@.srcs.len() && named_path(self@.srcs[i]) ==> #[trigger] r.unwrap()@[i]@
                    == generated_name_of(self@.srcs[i]),
    {
        let mut names: Vec<String> = Vec::new();
        let mut i: usize = 0;
        while i < self.srcs.len()
            invariant
                i <= self.srcs.len(),
                names@.len() == i,
                forall|j: int|
                    0 <= j < i ==> is_generated_name(
                        views(self.srcs@)[j],
                        #[trigger] names@[j]@,
                    ),
                forall|j: int|
                    0 <= j < i && named_path(views(self.srcs@)[j]) ==> #[trigger] names@[j]@
                        == generated_name_of(views(self.srcs@)[j]),
            ensures
                i < self.srcs.len() ==> !named_path(views(self.srcs@)[i as int]),
                names@.len() == i,
                forall|j: int|
                    0 <= j < i ==> is_generated_name(
                        views(self.srcs@)[j],
                        #[trigger] names@[j]@,
                    ),
                forall|j: int|
                    0 <= j < i && named_path(views(self.srcs@)[j]) ==> #[trigger] names@[j]@
                        == generated_name_of(views(self.srcs@)[j]),
            decreases self.srcs.len() - i,
        {
            match generated_file_name(self.srcs[i].as_str()) {
                Some(name) => names.push(name),
                None => {
                    break;
                },
            }
            i = i + 1;
        }
        if i < self.srcs.len() {
            assert(!named_path(self@.srcs[i as int]));
            None
        } else {
            Some(names)
        }
    }
}

/// The directory that holds the file at `path` (`lib.rs`, for the crate
/// root): `path` without its last component; `None` where it has none. On
/// a simple path, the text before the last `/`.
pub fn parent_dir(path: &str) -> (r: Option<String>)
    ensures
        r is Some ==> r.unwrap()@.len() <= path@.len() && r.unwrap()@ == path@.take(
            r.unwrap()@.len() as int,
        ),
        simple_path(path@) ==> r is Some && r.unwrap()@ == dir_part(path@),
{
    path_parent(path)
}

/// Where the runtime library `output` lies, for linking: its directory and
/// its file stem (`out/runtime/game_ecsact_rt.dll` gives `out/runtime` and
/// `game_ecsact_rt`); `None` where `output` has no directory or no file
/// name. On a simple path, the directory is the text before the last `/`
/// and the stem is that of the last segment.
pub fn runtime_library_location(output: &str) -> (r: Option<(String, String)>)
    ensures
        r is Some ==> r.unwrap().0@ == output@.take(r.unwrap().0@.len() as int),
        r is Some ==> r.unwrap().0@.len() <= output@.len(),
        r is Some ==> occurs_in(output@, r.unwrap().1@),
        simple_path(output@) ==> r is Some && r.unwrap().0@ == dir_part(output@) && r.unwrap().1@
            == bare_stem(last_segment(output@)),
{
    match path_parent(output) {
        Some(dir) => match path_file_stem(output) {
            Some(stem) => Some((dir, stem)),
            None => None,
        },
        None => None,
    }
}

} // verus!
