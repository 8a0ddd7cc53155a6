//! The files of the throwaway workspace in which a driver is built.

use vstd::prelude::*;
use vstd::string::*;
use crate::orchestrator::BuildPhase;
use crate::text::replace_char;
use crate::text::replaced;

verus! {

/// How the generated manifest finds the driver runtime.
pub enum BuildMode {
    /// The runtime is taken from the registry, pinned to the tool's version.
    Release,
    /// The runtime is additionally pinned to a source checkout at this path.
    LocalDevelopment(String),
}

/// The three generated texts of a build workspace.
pub struct BuildDescriptor {
    pub manifest: String,
    pub toolchain_pin: String,
    pub entry_point: String,
}

/// Text of the manifest for `toolchain` with the given dependency entry.
pub open spec fn manifest_text(toolchain: Seq<char>, driver_spec: Seq<char>) -> Seq<char> {
    "\n[package]\nname = \"dylint_driver-"@ + toolchain
        + "\"\nversion = \"0.1.0\"\nedition = \"2018\"\n\n[dependencies]\nanyhow = \"1.0.38\"\nenv_logger = \"0.8.3\"\ndylint_driver = { "@
        + driver_spec + " }\n"@
}

/// Text of the toolchain pin for `toolchain`.
pub open spec fn toolchain_pin_text(toolchain: Seq<char>) -> Seq<char> {
    "\n[toolchain]\nchannel = \""@ + toolchain
        + "\"\ncomponents = [\"llvm-tools-preview\", \"rustc-dev\"]\n"@
}

/// Text of the generated entry point.
pub open spec fn entry_point_text() -> Seq<char> {
    "\nuse anyhow::Result;\nuse std::env;\nuse std::ffi::OsString;\n\npub fn main() -> Result<()> {\n    env_logger::init();\n\n    let args: Vec<_> = env::args().map(OsString::from).collect();\n\n    dylint_driver::dylint_driver(&args)\n}\n"@
}

/// The dependency entry: an exact version requirement, followed in local
/// development by the escaped path of the source checkout.
pub open spec fn driver_spec_text(tool_version: Seq<char>, mode: BuildMode) -> Seq<char> {
    let version_part = "version = \"="@ + tool_version + "\""@;
    match mode {
        BuildMode::Release => version_part,
        BuildMode::LocalDevelopment(path) => version_part + ", path = \""@
            + replaced(path@, '\\', "\\\\"@) + "\""@,
    }
}

/// Builds the manifest of the workspace that compiles the driver for
/// `toolchain`.
pub fn cargo_toml(toolchain: &str, dylint_driver_spec: &str) -> (text: String)
    ensures
        text@ == manifest_text(toolchain@, dylint_driver_spec@),
{
    let mut text = String::from_str("\n[package]\nname = \"dylint_driver-");
    text.append(toolchain);
    text.append(
        "\"\nversion = \"0.1.0\"\nedition = \"2018\"\n\n[dependencies]\nanyhow = \"1.0.38\"\nenv_logger = \"0.8.3\"\ndylint_driver = { ",
    );
    text.append(dylint_driver_spec);
    text.append(" }\n");
    text
}

/// Builds the toolchain pin, which names the channel and the two compiler
/// components that a driver needs.
pub fn rust_toolchain(toolchain: &str) -> (text: String)
    ensures
        text@ == toolchain_pin_text(toolchain@),
{
    let mut text = String::from_str("\n[toolchain]\nchannel = \"");
    text.append(toolchain);
    text.append("\"\ncomponents = [\"llvm-tools-preview\", \"rustc-dev\"]\n");
    text
}

/// The entry point of every generated driver: it starts logging and hands the
/// process arguments to the driver runtime.
pub fn main_rs() -> (text: String)
    ensures
        text@ == entry_point_text(),
{
    String::from_str(
        "\nuse anyhow::Result;\nuse std::env;\nuse std::ffi::OsString;\n\npub fn main() -> Result<()> {\n    env_logger::init();\n\n    let args: Vec<_> = env::args().map(OsString::from).collect();\n\n    dylint_driver::dylint_driver(&args)\n}\n",
    )
}

/// Builds the dependency entry of the manifest for the running tool's
/// version.
pub fn driver_spec(tool_version: &str, mode: &BuildMode) -> (text: String)
    ensures
        text@ == driver_spec_text(tool_version@, *mode),
{
    let mut text = String::from_str("version = \"=");
    text.append(tool_version);
    text.append("\"");
    match mode {
        BuildMode::Release => {},
        BuildMode::LocalDevelopment(path) => {
            let escaped = replace_char(path.as_str(), '\\', "\\\\");
            text.append(", path = \"");
            text.append(escaped.as_str());
            text.append("\"");
        },
    }
    text
}

/// Generates the descriptor of the workspace that builds the driver for
/// `toolchain`. It depends on nothing but its arguments.
pub fn generate(toolchain: &str, tool_version: &str, mode: &BuildMode) -> (descriptor: BuildDescriptor)
    ensures
        descriptor.manifest@ == manifest_text(toolchain@, driver_spec_text(tool_version@, *mode)),
        descriptor.toolchain_pin@ == toolchain_pin_text(toolchain@),
        descriptor.entry_point@ == entry_point_text(),
{
    let spec = driver_spec(tool_version, mode);
    BuildDescriptor {
        manifest: cargo_toml(toolchain, spec.as_str()),
        toolchain_pin: rust_toolchain(toolchain),
        entry_point: main_rs(),
    }
}

impl BuildDescriptor {
    /// The text that the operation `phase` of a build writes, for the three
    /// operations that write a file.
    pub open spec fn content_of(self, phase: BuildPhase) -> Option<Seq<char>> {
        match phase {
            BuildPhase::WriteManifest => Some(self.manifest@),
            BuildPhase::WriteToolchainPin => Some(self.toolchain_pin@),
            BuildPhase::WriteEntryPoint => Some(self.entry_point@),
            _ => None,
        }
    }

    /// Hands out the text that `phase` writes into the workspace, if it
    /// writes one.
    pub fn content<'a>(&'a self, phase: BuildPhase) -> (text: Option<&'a str>)
        ensures
            text is Some <==> self.content_of(phase) is Some,
            text is Some ==> text->Some_0@ == self.content_of(phase)->Some_0,
    {
        match phase {
            BuildPhase::WriteManifest => Some(self.manifest.as_str()),
            BuildPhase::WriteToolchainPin => Some(self.toolchain_pin.as_str()),
            BuildPhase::WriteEntryPoint => Some(self.entry_point.as_str()),
            _ => None,
        }
    }
}

} // verus!
