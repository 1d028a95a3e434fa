//! The fan-out over a batch of files.
//!
//! The coordinator fixes what all files of a run share: the output directory,
//! the factor, the chain of decoding strategies and the configured number of
//! workers. It decides whether there is anything to set up, and it takes
//! every file through the steps of the pipeline under these settings. How the
//! files are spread over threads is the caller's business: every file is
//! processed on its own, so neither the order nor the degree of parallelism
//! changes what is owed for a file.

use crate::decoder::default_chain;
use crate::decoder::standard_chain;
use crate::decoder::DecodeStrategy;
use crate::outcome::no_strategy_reason;
use crate::paths::is_jpeg_path;
use crate::paths::joined;
use crate::paths::output_directory;
use crate::paths::output_directory_name;
use crate::pipeline::attempt_step;
use crate::pipeline::begin;
use crate::pipeline::decoded;
use crate::pipeline::render_step;
use crate::pipeline::FileStep;
use crate::pipeline::SourceFile;
use crate::raster::ImageBuffer;
use crate::sizing::MagnificationFactor;
use vstd::prelude::*;
use vstd::string::*;

verus! {

/// What has to happen before the first file is dispatched.
#[derive(Clone, Debug, PartialEq, Eq)]
pub enum Setup {
    /// No file was discovered: nothing is created and nothing is dispatched.
    Idle,
    /// Make sure that this directory exists, then dispatch.
    CreateDirectory(String),
}

/// The settings of one run.
#[derive(Debug)]
pub struct Coordinator {
    directory: String,
    factor: MagnificationFactor,
    workers: Option<usize>,
    chain: Vec<DecodeStrategy>,
}

/// The number of workers to run with: the configured number where one is
/// configured and not zero, else as many as there are processing units.
pub open spec fn resolved_workers(configured: Option<usize>, available: usize) -> usize {
    match configured {
        Some(count) => if count > 0 {
            count
        } else {
            available
        },
        None => available,
    }
}

impl Coordinator {
    /// The directory that receives the outputs.
    pub closed spec fn directory(&self) -> Seq<char> {
        self.directory@
    }

    /// The factor that every file is magnified by.
    pub closed spec fn factor(&self) -> nat {
        self.factor@
    }

    /// The number of workers asked for, if any.
    pub closed spec fn configured_workers(&self) -> Option<usize> {
        self.workers
    }

    /// The decoding strategies, in the order in which they are tried.
    pub closed spec fn chain(&self) -> Seq<DecodeStrategy> {
        self.chain@
    }

    /// A coordinator for a scan of `root`. Its outputs go to the directory
    /// named `4x` directly below `root`; content is decoded by the standard chain.
    pub fn new(root: &str, factor: MagnificationFactor, workers: Option<usize>) -> (coordinator:
        Coordinator)
        ensures
            coordinator.directory() == joined(root@, output_directory_name()),
            coordinator.factor() == factor@,
            coordinator.configured_workers() == workers,
            coordinator.chain() == standard_chain(),
    {
        Coordinator { directory: output_directory(root), factor, workers, chain: default_chain() }
    }

    /// The directory that receives the outputs.
    pub fn output_directory(&self) -> (directory: &str)
        ensures
            directory@ == self.directory(),
    {
        self.directory.as_str()
    }

    /// The number of workers to run with on a machine of `available` processing units.
    pub fn worker_count(&self, available: usize) -> (count: usize)
        ensures
            count == resolved_workers(self.configured_workers(), available),
    {
        match self.workers {
            Some(count) => if count > 0 {
                count
            } else {
                available
            },
            None => available,
        }
    }

    /// What to set up for `discovered` files. The output directory is asked
    /// for only once there is a file to put in it.
    pub fn setup(&self, discovered: usize) -> (setup: Setup)
        ensures
            discovered == 0 <==> setup is Idle,
            setup matches Setup::CreateDirectory(directory) ==> directory@ == self.directory(),
    {
        if discovered == 0 {
            Setup::Idle
        } else {
            Setup::CreateDirectory(self.directory.clone())
        }
    }

    /// The first step for one file, under this run's settings.
    pub fn begin(&self, source: &SourceFile) -> (step: FileStep)
        ensures
            attempt_step(step, *source, self.chain(), 0, no_strategy_reason()),
    {
        begin(source, &self.chain)
    }

    /// The step that follows a decoder's answer, under this run's settings.
    pub fn decoded(&self, source: &SourceFile, attempt: usize, answer: Result<
        ImageBuffer,
        String,
    >) -> (step: FileStep)
        ensures
            match answer {
                Ok(image) => render_step(
                    step,
                    image@,
                    source.path@,
                    self.directory(),
                    self.factor(),
                ) && (is_jpeg_path(source.path@) && image.can_magnify(self.factor())
                    ==> step is Save),
                Err(reason) => attempt_step(step, *source, self.chain(), attempt + 1, reason@),
            },
    {
        decoded(source, &self.chain, attempt, answer, self.directory.as_str(), &self.factor)
    }

    /// The first step of every file, in the order of `sources`. There is
    /// exactly one step for each source, failures included: a file that
    /// cannot be read ends with its own failure and the run goes on.
    pub fn run(&self, sources: &Vec<SourceFile>) -> (steps: Vec<FileStep>)
        ensures
            steps.len() == sources.len(),
            forall|i: int|
                0 <= i < sources.len() ==> attempt_step(
                    #[trigger] steps[i],
                    sources[i],
                    self.chain(),
                    0,
                    no_strategy_reason(),
                ),
    {
        let mut steps: Vec<FileStep> = Vec::new();
        let mut next: usize = 0;
        while next < sources.len()
            invariant
                next <= sources.len(),
                steps.len() == next,
                forall|i: int|
                    0 <= i < next ==> attempt_step(
                        #[trigger] steps[i],
                        sources[i],
                        self.chain(),
                        0,
                        no_strategy_reason(),
                    ),
            decreases sources.len() - next,
        {
            let step = self.begin(&sources[next]);
            steps.push(step);
            next = next + 1;
        }
        steps
    }
}

} // verus!
