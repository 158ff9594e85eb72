use vstd::prelude::*;
use vstd::string::StringExecFns;

use crate::engine::EngineVariant;
use crate::path::{joined, string_path};
use crate::provision::DownloadError;

verus! {

/// Where the engine's release archives are published.
pub const BINARIES_URL: &'static str = "https://github.com/lightvector/KataGo/releases/download/v1.13.0/";

/// The directory that the engine's archive is unpacked into.
pub const BINARY_DIR: &'static str = "KataGo";

/// Where the model weights are published.
pub const MODELS_URL: &'static str = "https://media.katagotraining.org/uploaded/networks/models/kata1/";

/// The model weights file, kept under this name beside the program.
pub const MODEL: &'static str = "kata1-b18c384nbt-s8341979392-d3881113763.bin.gz";

/// The configuration file, shipped inside the engine's archive.
pub const CONFIG: &'static str = "analysis_example.cfg";

/// The operating system family that decides the engine's file names.
#[derive(Clone, Copy, Debug, PartialEq, Eq, Structural)]
pub enum Platform {
    Windows,
    Unix,
}

/// The engine's executable inside its archive.
pub open spec fn binary_name(p: Platform) -> Seq<char> {
    match p {
        Platform::Windows => "katago.exe"@,
        Platform::Unix => "katago"@,
    }
}

/// The release archive of the engine for a platform and a variant.
pub open spec fn archive_name(p: Platform, v: EngineVariant) -> Seq<char> {
    match (p, v) {
        (Platform::Windows, EngineVariant::Gpu) => "katago-v1.13.0-opencl-windows-x64.zip"@,
        (Platform::Windows, EngineVariant::Cpu) => "katago-v1.13.0-eigenavx2-windows-x64.zip"@,
        (Platform::Unix, EngineVariant::Gpu) => "katago-v1.13.0-opencl-linux-x64.zip"@,
        (Platform::Unix, EngineVariant::Cpu) => "katago-v1.13.0-eigenavx2-linux-x64.zip"@,
    }
}

/// The file name of the engine's executable on `p`.
pub fn binary_file(p: Platform) -> (r: String)
    ensures
        r@ == binary_name(p),
{
    match p {
        Platform::Windows => String::from_str("katago.exe"),
        Platform::Unix => String::from_str("katago"),
    }
}

/// The release archive to fetch for `p` and `v`.
pub fn binary_archive(p: Platform, v: EngineVariant) -> (r: String)
    ensures
        r@ == archive_name(p, v),
{
    match (p, v) {
        (Platform::Windows, EngineVariant::Gpu) => String::from_str("katago-v1.13.0-opencl-windows-x64.zip"),
        (Platform::Windows, EngineVariant::Cpu) => String::from_str("katago-v1.13.0-eigenavx2-windows-x64.zip"),
        (Platform::Unix, EngineVariant::Gpu) => String::from_str("katago-v1.13.0-opencl-linux-x64.zip"),
        (Platform::Unix, EngineVariant::Cpu) => String::from_str("katago-v1.13.0-eigenavx2-linux-x64.zip"),
    }
}

/// Where the engine's executable lies once provisioned.
pub fn binary_path(p: Platform) -> (r: String)
    ensures
        r@ == joined(BINARY_DIR@, binary_name(p)),
{
    let name = binary_file(p);
    string_path(BINARY_DIR, name.as_str())
}

/// Where the engine's configuration file lies once provisioned.
pub fn config_path() -> (r: String)
    ensures
        r@ == joined(BINARY_DIR@, CONFIG@),
{
    string_path(BINARY_DIR, CONFIG)
}

/// One sub-step of fetching an asset.
pub enum FetchStage {
    /// Retrieve `url` and store it at `to`.
    Download { url: String, to: String },
    /// Expand the archive at `archive` into the directory `into`.
    Unpack { archive: String, into: String },
    /// Remove the file at the path.
    Remove(String),
    /// Give the file at the path execute permission.
    MakeExecutable(String),
}

/// The stages that fetch the engine: retrieve the archive for `p` and `v`,
/// unpack it, remove it, and make `executable` runnable.
pub fn binary_fetch_plan(p: Platform, v: EngineVariant, executable: &str) -> (r: Vec<FetchStage>)
    ensures
        r@.len() == 4,
        r@[0] matches FetchStage::Download { url, to } && url@ == BINARIES_URL@ + archive_name(p, v)
            && to@ == archive_name(p, v),
        r@[1] matches FetchStage::Unpack { archive, into } && archive@ == archive_name(p, v)
            && into@ == BINARY_DIR@,
        r@[2] matches FetchStage::Remove(f) && f@ == archive_name(p, v),
        r@[3] matches FetchStage::MakeExecutable(f) && f@ == executable@,
{
    let archive = binary_archive(p, v);
    let url = String::from_str(BINARIES_URL).concat(archive.as_str());
    let mut plan: Vec<FetchStage> = Vec::new();
    plan.push(FetchStage::Download { url, to: archive.clone() });
    plan.push(FetchStage::Unpack { archive: archive.clone(), into: String::from_str(BINARY_DIR) });
    plan.push(FetchStage::Remove(archive));
    plan.push(FetchStage::MakeExecutable(String::from_str(executable)));
    plan
}

/// The stages that fetch the model weights: one download to their file.
pub fn model_fetch_plan() -> (r: Vec<FetchStage>)
    ensures
        r@.len() == 1,
        r@[0] matches FetchStage::Download { url, to } && url@ == MODELS_URL@ + MODEL@ && to@
            == MODEL@,
{
    let url = String::from_str(MODELS_URL).concat(MODEL);
    let mut plan: Vec<FetchStage> = Vec::new();
    plan.push(FetchStage::Download { url, to: String::from_str(MODEL) });
    plan
}

/// A fetch in progress: its stages run in order, and the first failure ends
/// it with that failure, with nothing undone.
pub struct FetchRun {
    stages: Vec<FetchStage>,
    next: usize,
    failed: bool,
}

impl FetchRun {
    pub closed spec fn stages(&self) -> Seq<FetchStage> {
        self.stages@
    }

    /// How many stages have succeeded.
    pub closed spec fn succeeded(&self) -> nat {
        self.next as nat
    }

    /// Whether a stage has failed.
    pub closed spec fn has_failed(&self) -> bool {
        self.failed
    }

    pub closed spec fn wf(&self) -> bool {
        self.next <= self.stages@.len()
    }

    /// Whether a stage is still to run.
    pub open spec fn is_running(&self) -> bool {
        !self.has_failed() && self.succeeded() < self.stages().len()
    }

    /// Starts a fetch made of `stages`.
    pub fn new(stages: Vec<FetchStage>) -> (r: FetchRun)
        ensures
            r.wf(),
            r.stages() == stages@,
            r.succeeded() == 0,
            !r.has_failed(),
    {
        FetchRun { stages, next: 0, failed: false }
    }

    /// The stage to run now, while no stage has failed and some are left.
    pub fn pending(&self) -> (r: Option<&FetchStage>)
        requires
            self.wf(),
        ensures
            self.is_running() ==> r == Some(&self.stages()[self.succeeded() as int]),
            !self.is_running() ==> r is None,
    {
        if !self.failed && self.next < self.stages.len() {
            Some(&self.stages[self.next])
        } else {
            None
        }
    }

    /// Takes in the outcome of the pending stage. Returns the outcome of the
    /// whole fetch once it is decided: the first failure, or success after
    /// the last stage.
    pub fn record(&mut self, outcome: Result<(), DownloadError>) -> (r: Option<Result<(), DownloadError>>)
        requires
            old(self).wf(),
            old(self).is_running(),
        ensures
            final(self).wf(),
            final(self).stages() == old(self).stages(),
            match outcome {
                Err(e) => {
                    &&& final(self).has_failed()
                    &&& final(self).succeeded() == old(self).succeeded()
                    &&& r == Some(Err::<(), DownloadError>(e))
                },
                Ok(()) => {
                    &&& !final(self).has_failed()
                    &&& final(self).succeeded() == old(self).succeeded() + 1
                    &&& (final(self).succeeded() == final(self).stages().len() ==> r == Some(
                        Ok::<(), DownloadError>(()),
                    ))
                    &&& (final(self).succeeded() < final(self).stages().len() ==> r is None)
                },
            },
    {
        match outcome {
            Err(e) => {
                self.failed = true;
                Some(Err(e))
            },
            Ok(()) => {
                let total = self.stages.len();
                self.next = self.next + 1;
                if self.next == total {
                    Some(Ok(()))
                } else {
                    None
                }
            },
        }
    }
}

} // verus!
