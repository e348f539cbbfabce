//! What is learned about the print server's Python environment from the
//! output of `python` and `pip`.
use crate::json::{
    items_view, parse, text_at, text_member, json_document, JsonDoc,
    JsonValue,
};
use crate::text::{chars_of, find_char, position_of, same_text, text_of};
use vstd::prelude::*;
use vstd::utf8::encode_utf8;

verus! {

/// Where the print server keeps its data.
pub const OCTOPRINT_BASE_PATH: &'static str = "/home/octoprint/.octoprint";

/// The system's Python.
pub const PYTHON_BIN: &'static str = "/usr/bin/python3";

/// An installed Python package.
#[derive(Debug, PartialEq, Eq)]
pub struct PipPackage {
    pub name: String,
    pub version: String,
}

pub struct PipPackageView {
    pub name: Seq<char>,
    pub version: Seq<char>,
}

impl View for PipPackage {
    type V = PipPackageView;

    open spec fn view(&self) -> PipPackageView {
        PipPackageView { name: self.name@, version: self.version@ }
    }
}

/// The views of packages in order.
pub open spec fn packages_view(packages: Seq<PipPackage>) -> Seq<PipPackageView> {
    packages.map_values(|p: PipPackage| p@)
}

/// Why the environment could not be described.
#[derive(Debug, PartialEq, Eq)]
pub enum PrintNannyCloudConfigError {
    /// A command ended without success.
    CommandError { cmd: String, stdout: String, stderr: String, code: Option<i32> },
    /// The output of `pip list` is no list of packages.
    PipListError,
    /// A package that has to be installed is not.
    OctoPrintServerConfigError { field: String, detail: Option<String> },
}

/// What comes after the first space, if there is a space: of
/// `Python 3.10.4` it is `3.10.4`.
pub open spec fn python_version_of(stdout: Seq<char>) -> Option<Seq<char>> {
    let space = find_char(stdout, ' ', 0);
    if space < stdout.len() {
        Some(stdout.subrange(space + 1, stdout.len() as int))
    } else {
        None
    }
}

/// What stands between the first space and the second, or the end, if
/// there is a space: of `pip 22.0.2 from /usr/lib` it is `22.0.2`.
pub open spec fn pip_version_of(stdout: Seq<char>) -> Option<Seq<char>> {
    let space = find_char(stdout, ' ', 0);
    if space < stdout.len() {
        Some(stdout.subrange(space + 1, find_char(stdout, ' ', space + 1)))
    } else {
        None
    }
}

/// Reads the version from the output of `python3 --version`.
pub fn parse_python_version(stdout: &str) -> (version: Option<String>)
    ensures
        match version {
            Some(v) => python_version_of(stdout@) == Some(v@),
            None => python_version_of(stdout@) is None,
        },
{
    let chars = chars_of(stdout);
    let space = position_of(&chars, ' ', 0);
    if space < chars.len() {
        Some(text_of(&chars, space + 1, chars.len()))
    } else {
        None
    }
}

/// Reads the version from the output of `pip --version`.
pub fn parse_pip_version(stdout: &str) -> (version: Option<String>)
    ensures
        match version {
            Some(v) => pip_version_of(stdout@) == Some(v@),
            None => pip_version_of(stdout@) is None,
        },
{
    let chars = chars_of(stdout);
    let space = position_of(&chars, ' ', 0);
    if space < chars.len() {
        let end = position_of(&chars, ' ', space + 1);
        Some(text_of(&chars, space + 1, end))
    } else {
        None
    }
}

/// The package that a document describes: an object with the texts `name`
/// and `version`; what else it holds is passed over.
pub open spec fn package_of(doc: JsonDoc) -> Option<PipPackageView> {
    match doc {
        JsonDoc::Object(m) => match (text_at(m, "name"@), text_at(m, "version"@)) {
            (Some(name), Some(version)) => Some(PipPackageView { name, version }),
            _ => None,
        },
        _ => None,
    }
}

/// The packages of an array that holds packages only.
pub open spec fn packages_of(doc: JsonDoc) -> Option<Seq<PipPackageView>> {
    match doc {
        JsonDoc::Array(items) => if forall|i: int|
            0 <= i < items.len() ==> package_of(#[trigger] items[i]) is Some {
            Some(Seq::new(items.len(), |i: int| package_of(items[i])->0))
        } else {
            None
        },
        _ => None,
    }
}

/// Computes `package_of`.
pub fn package_from_json(value: &JsonValue) -> (r: Option<PipPackage>)
    ensures
        match r {
            Some(package) => package_of(value@) == Some(package@),
            None => package_of(value@) is None,
        },
{
    let members = value.members()?;
    let name = text_member(members, "name")?;
    let version = text_member(members, "version")?;
    Some(PipPackage { name, version })
}

/// Reads the packages from a document.
pub fn packages_from_json(value: &JsonValue) -> (r: Option<Vec<PipPackage>>)
    ensures
        match r {
            Some(packages) => packages_of(value@) == Some(packages_view(packages@)),
            None => packages_of(value@) is None,
        },
{
    let items = value.items()?;
    let mut packages: Vec<PipPackage> = Vec::new();
    let mut i: usize = 0;
    while i < items.len()
        invariant
            i <= items.len(),
            packages@.len() == i,
            value@ == JsonDoc::Array(items_view(items@)),
            forall|k: int| 0 <= k < i ==> package_of(#[trigger] items@[k]@) == Some(packages@[k]@),
        decreases items.len() - i,
    {
        match package_from_json(&items[i]) {
            Some(package) => {
                packages.push(package);
            },
            None => {
                assert(package_of(value@->Array_0[i as int]) is None);
                return None;
            },
        }
        i = i + 1;
    }
    assert forall|k: int| 0 <= k < items.len() implies package_of(#[trigger] value@->Array_0[k])
        is Some by {
        assert(package_of(items@[k]@) is Some);
    }
    assert(packages_of(value@)->0 =~= packages_view(packages@)) by {
        assert forall|k: int| 0 <= k < items.len() implies packages_of(value@)->0[k]
            == packages_view(packages@)[k] by {
            assert(package_of(items@[k]@) == Some(packages@[k]@));
        }
    }
    Some(packages)
}

/// The packages that the output of `pip list --format json` lists, the
/// output taken as bytes.
pub open spec fn pip_list_of(stdout: Seq<u8>) -> Option<Seq<PipPackageView>> {
    match json_document(stdout) {
        Some(doc) => packages_of(doc),
        None => None,
    }
}

/// Reads the output of `pip list --format json`.
pub fn parse_pip_list_json(stdout: &str) -> (r: Result<Vec<PipPackage>, PrintNannyCloudConfigError>)
    ensures
        match r {
            Ok(packages) => pip_list_of(encode_utf8(stdout@)) == Some(packages_view(packages@)),
            Err(e) => pip_list_of(encode_utf8(stdout@)) is None && e is PipListError,
        },
{
    match parse(stdout.as_bytes()) {
        None => Err(PrintNannyCloudConfigError::PipListError),
        Some(value) => match packages_from_json(&value) {
            Some(packages) => Ok(packages),
            None => Err(PrintNannyCloudConfigError::PipListError),
        },
    }
}

/// The place of the first package with this name.
pub open spec fn package_index(packages: Seq<PipPackageView>, name: Seq<char>, from: int) -> Option<
    int,
>
    decreases packages.len() - from,
{
    if from < 0 || from >= packages.len() {
        None
    } else if packages[from].name == name {
        Some(from)
    } else {
        package_index(packages, name, from + 1)
    }
}

/// The version of the first package with this name.
pub open spec fn version_of(packages: Seq<PipPackageView>, name: Seq<char>) -> Option<Seq<char>> {
    match package_index(packages, name, 0) {
        Some(i) => Some(packages[i].version),
        None => None,
    }
}

/// Finds the version of the first package with this name.
pub fn find_version(packages: &Vec<PipPackage>, name: &str) -> (r: Option<String>)
    ensures
        match r {
            Some(v) => version_of(packages_view(packages@), name@) == Some(v@),
            None => version_of(packages_view(packages@), name@) is None,
        },
{
    let mut i: usize = 0;
    while i < packages.len()
        invariant
            i <= packages.len(),
            package_index(packages_view(packages@), name@, 0) == package_index(
                packages_view(packages@),
                name@,
                i as int,
            ),
        decreases packages.len() - i,
    {
        assert(packages_view(packages@)[i as int] == packages@[i as int]@);
        if same_text(packages[i].name.as_str(), name) {
            return Some(packages[i].version.clone());
        }
        i = i + 1;
    }
    None
}

/// What a command that has ended left behind.
#[derive(Debug, PartialEq, Eq)]
pub struct CommandOutput {
    pub cmd: String,
    pub success: bool,
    pub code: Option<i32>,
    pub stdout: String,
    pub stderr: String,
}

/// Looks into the Python environment of a print server.
#[derive(Debug, PartialEq, Eq)]
pub struct OctoPrintHelper {
    pub python_path: String,
}

/// Whether an error reports that this command failed, with all that it
/// left behind.
pub open spec fn reports_command(e: PrintNannyCloudConfigError, output: CommandOutput) -> bool {
    match e {
        PrintNannyCloudConfigError::CommandError { cmd, stdout, stderr, code } => cmd@
            == output.cmd@ && stdout@ == output.stdout@ && stderr@ == output.stderr@ && code
            == output.code,
        _ => false,
    }
}

/// Whether an error reports that what `field` asks for is missing.
pub open spec fn reports_missing(e: PrintNannyCloudConfigError, field: Seq<char>) -> bool {
    match e {
        PrintNannyCloudConfigError::OctoPrintServerConfigError { field: f, detail } => f@ == field
            && detail is None,
        _ => false,
    }
}

fn command_error(output: CommandOutput) -> (e: PrintNannyCloudConfigError)
    ensures
        reports_command(e, output),
{
    PrintNannyCloudConfigError::CommandError {
        cmd: output.cmd,
        stdout: output.stdout,
        stderr: output.stderr,
        code: output.code,
    }
}

impl OctoPrintHelper {
    /// The helper for the environment of the Python at `python_path`.
    pub fn new(python_path: String) -> (helper: Self)
        ensures
            helper.python_path@ == python_path@,
    {
        OctoPrintHelper { python_path }
    }

    /// Whether this edition of the system runs a print server that a helper
    /// looks after.
    pub fn required(variant_id: &str) -> (r: bool)
        ensures
            r == (variant_id@ == "octoprint"@),
    {
        same_text(variant_id, "octoprint")
    }

    /// The arguments that make Python report pip's version.
    pub fn pip_version_args() -> (args: Vec<&'static str>)
        ensures
            args@ == seq!["-m", "pip", "--version"],
    {
        let mut args: Vec<&'static str> = Vec::new();
        args.push("-m");
        args.push("pip");
        args.push("--version");
        assert(args@ =~= seq!["-m", "pip", "--version"]);
        args
    }

    /// The arguments that make Python list the installed packages as JSON,
    /// editable ones too.
    pub fn pip_packages_args() -> (args: Vec<&'static str>)
        ensures
            args@ == seq!["-m", "pip", "list", "--include-editable", "--format", "json"],
    {
        let mut args: Vec<&'static str> = Vec::new();
        args.push("-m");
        args.push("pip");
        args.push("list");
        args.push("--include-editable");
        args.push("--format");
        args.push("json");
        assert(args@ =~= seq!["-m", "pip", "list", "--include-editable", "--format", "json"]);
        args
    }

    /// The arguments that make Python report its own version.
    pub fn python_version_args() -> (args: Vec<&'static str>)
        ensures
            args@ == seq!["--version"],
    {
        let mut args: Vec<&'static str> = Vec::new();
        args.push("--version");
        assert(args@ =~= seq!["--version"]);
        args
    }

    /// Pip's version, from what `python -m pip --version` left behind.
    pub fn pip_version(output: CommandOutput) -> (r: Result<
        Option<String>,
        PrintNannyCloudConfigError,
    >)
        ensures
            match r {
                Ok(Some(v)) => output.success && pip_version_of(output.stdout@) == Some(v@),
                Ok(None) => output.success && pip_version_of(output.stdout@) is None,
                Err(e) => !output.success && reports_command(e, output),
            },
    {
        if output.success {
            Ok(parse_pip_version(output.stdout.as_str()))
        } else {
            Err(command_error(output))
        }
    }

    /// Python's version, from what `python --version` left behind.
    pub fn python_version(output: CommandOutput) -> (r: Result<
        Option<String>,
        PrintNannyCloudConfigError,
    >)
        ensures
            match r {
                Ok(Some(v)) => output.success && python_version_of(output.stdout@) == Some(v@),
                Ok(None) => output.success && python_version_of(output.stdout@) is None,
                Err(e) => !output.success && reports_command(e, output),
            },
    {
        if output.success {
            Ok(parse_python_version(output.stdout.as_str()))
        } else {
            Err(command_error(output))
        }
    }

    /// The installed packages, from what `python -m pip list` left behind.
    pub fn pip_packages(output: CommandOutput) -> (r: Result<
        Vec<PipPackage>,
        PrintNannyCloudConfigError,
    >)
        ensures
            match r {
                Ok(packages) => output.success && pip_list_of(encode_utf8(output.stdout@))
                    == Some(packages_view(packages@)),
                Err(e) => if output.success {
                    pip_list_of(encode_utf8(output.stdout@)) is None && e is PipListError
                } else {
                    reports_command(e, output)
                },
            },
    {
        if output.success {
            parse_pip_list_json(output.stdout.as_str())
        } else {
            Err(command_error(output))
        }
    }

    /// The version of the print server among the installed packages.
    pub fn octoprint_version(packages: &Vec<PipPackage>) -> (r: Result<
        String,
        PrintNannyCloudConfigError,
    >)
        ensures
            match r {
                Ok(v) => version_of(packages_view(packages@), "OctoPrint"@) == Some(v@),
                Err(e) => version_of(packages_view(packages@), "OctoPrint"@) is None
                    && reports_missing(e, "octoprint_version"@),
            },
    {
        match find_version(packages, "OctoPrint") {
            Some(v) => Ok(v),
            None => Err(
                PrintNannyCloudConfigError::OctoPrintServerConfigError {
                    field: "octoprint_version".to_owned(),
                    detail: None,
                },
            ),
        }
    }

    /// The version of the print server's plugin among the installed
    /// packages.
    pub fn printnanny_plugin_version(packages: &Vec<PipPackage>) -> (r: Result<
        Option<String>,
        PrintNannyCloudConfigError,
    >)
        ensures
            match r {
                Ok(Some(v)) => version_of(packages_view(packages@), "OctoPrint-Nanny"@) == Some(v@),
                Ok(None) => false,
                Err(e) => version_of(packages_view(packages@), "OctoPrint-Nanny"@) is None
                    && reports_missing(e, "printnanny_plugin_version"@),
            },
    {
        match find_version(packages, "OctoPrint-Nanny") {
            Some(v) => Ok(Some(v)),
            None => Err(
                PrintNannyCloudConfigError::OctoPrintServerConfigError {
                    field: "printnanny_plugin_version".to_owned(),
                    detail: None,
                },
            ),
        }
    }
}

} // verus!
