//! One request, step by step, for a driver that does the I/O.
//!
//! The handler decides and the driver looks at the disk. `start` takes the request and
//! either is done or asks whether a path is a directory; the answer either ends the
//! exchange or asks for a file to be opened; the answer to that ends it. Whatever the
//! driver answers, the exchange ends in the outcome that `serve` gives for the answers.
//! Every path that it asks about is the root directory followed by the decoded path of
//! the request; nothing is normalised, so a segment `..` of the request is a segment
//! `..` of the path asked about.

use vstd::prelude::*;
use vstd::string::*;
use crate::error::{Cause, ErrorView};
use crate::handler::{
    dir_redirect, is_outcome_of, is_supported, redirect_response, serve, Outcome,
};
use crate::path::{join, local_path, local_path_for_request, local_path_or_index, relative_path};
use crate::request::{Config, ConfigView, Probe, ProbeView, Request, RequestView};
use crate::response::ResponseView;
use crate::text::ends_with;

verus! {

/// The question whether a path is a directory.
#[derive(Debug)]
pub struct DirQuestion {
    config: Config,
    request: Request,
    path: String,
}

/// The question how opening a file goes.
#[derive(Debug)]
pub struct FileQuestion {
    config: Config,
    request: Request,
    is_dir: bool,
    path: String,
}

/// How an exchange begins: with its outcome, or with a question.
#[derive(Debug)]
pub enum Started {
    Done(Outcome),
    AskDir(DirQuestion),
}

/// How an exchange goes on after the first answer: with its outcome, or with a question.
#[derive(Debug)]
pub enum Probed {
    Done(Outcome),
    AskFile(FileQuestion),
}

/// The request is looked up on disk: it is a `GET` and its path decodes.
pub open spec fn may_touch_disk(req: RequestView) -> bool {
    &&& is_supported(req)
    &&& relative_path(req.path) is Ok
}

impl DirQuestion {
    #[verifier::type_invariant]
    spec fn inv(self) -> bool {
        &&& may_touch_disk(self.request@)
        &&& local_path(self.request@.path, self.config@.root_dir) == Ok::<
            Seq<char>,
            ErrorView,
        >(self.path@)
    }

    /// The configuration that the exchange was started with.
    pub closed spec fn config(self) -> ConfigView {
        self.config@
    }

    /// The request that the exchange was started with.
    pub closed spec fn request(self) -> RequestView {
        self.request@
    }

    /// The path that is asked about.
    pub closed spec fn asked(self) -> Seq<char> {
        self.path@
    }

    /// The path to look at: is it a directory?
    pub fn path(&self) -> (p: &str)
        ensures
            p@ == self.asked(),
            may_touch_disk(self.request()),
            local_path(self.request().path, self.config().root_dir) == Ok::<
                Seq<char>,
                ErrorView,
            >(p@),
    {
        proof {
            use_type_invariant(self);
        }
        self.path.as_str()
    }

    /// Goes on with the answer: `is_dir` says whether the path is a directory.
    ///
    /// A directory that was asked for without a trailing `/` ends the exchange with a
    /// redirect; no file is opened for it. Otherwise the file to open is the path itself,
    /// or the `index.html` in it when it is a directory.
    pub fn answer(self, is_dir: bool) -> (r: Probed)
        ensures
            r is Done <==> is_dir && !(self.request().path.len() > 0 && self.request().path.last()
                == '/'),
            match r {
                Probed::Done(o) => {
                    &&& dir_redirect(self.request(), self.config().root_dir, is_dir) == Ok::<
                        Option<ResponseView>,
                        ErrorView,
                    >(Some(redirect_response(self.request())))
                    &&& o@.response == redirect_response(self.request())
                    &&& forall|opened: Result<u64, Seq<Seq<char>>>| #[trigger]
                        is_outcome_of(
                            o@,
                            self.config(),
                            self.request(),
                            ProbeView { is_dir, opened },
                        )
                },
                Probed::AskFile(q) => {
                    &&& q.config() == self.config()
                    &&& q.request() == self.request()
                    &&& q.found_dir() == is_dir
                    &&& local_path_or_index(self.request().path, self.config().root_dir, is_dir)
                        == Ok::<Seq<char>, ErrorView>(q.asked())
                },
            },
    {
        proof {
            use_type_invariant(&self);
        }
        if is_dir && !ends_with(self.request.path.as_str(), '/') {
            let unopened = Probe { is_dir, opened: Err(Cause { chain: Vec::new() }) };
            let o = serve(&self.config, &self.request, unopened);
            Probed::Done(o)
        } else {
            let path = if is_dir {
                join(self.path.as_str(), "index.html")
            } else {
                self.path
            };
            Probed::AskFile(
                FileQuestion { config: self.config, request: self.request, is_dir, path },
            )
        }
    }
}

impl FileQuestion {
    #[verifier::type_invariant]
    spec fn inv(self) -> bool {
        &&& may_touch_disk(self.request@)
        &&& dir_redirect(self.request@, self.config@.root_dir, self.is_dir) == Ok::<
            Option<ResponseView>,
            ErrorView,
        >(None)
        &&& local_path_or_index(self.request@.path, self.config@.root_dir, self.is_dir) == Ok::<
            Seq<char>,
            ErrorView,
        >(self.path@)
    }

    /// The configuration that the exchange was started with.
    pub closed spec fn config(self) -> ConfigView {
        self.config@
    }

    /// The request that the exchange was started with.
    pub closed spec fn request(self) -> RequestView {
        self.request@
    }

    /// Whether the local path of the request was found to be a directory.
    pub closed spec fn found_dir(self) -> bool {
        self.is_dir
    }

    /// The path that is asked about.
    pub closed spec fn asked(self) -> Seq<char> {
        self.path@
    }

    /// The path of the file to open.
    pub fn path(&self) -> (p: &str)
        ensures
            p@ == self.asked(),
            may_touch_disk(self.request()),
            local_path_or_index(self.request().path, self.config().root_dir, self.found_dir())
                == Ok::<Seq<char>, ErrorView>(p@),
    {
        proof {
            use_type_invariant(self);
        }
        self.path.as_str()
    }

    /// Ends the exchange with the answer: `opened` says how opening the file went, and
    /// the file's length where it went well.
    pub fn answer(self, opened: Result<u64, Cause>) -> (o: Outcome)
        ensures
            is_outcome_of(
                o@,
                self.config(),
                self.request(),
                ProbeView {
                    is_dir: self.found_dir(),
                    opened: match opened {
                        Ok(len) => Ok(len),
                        Err(c) => Err(c@),
                    },
                },
            ),
    {
        let probe = Probe { is_dir: self.is_dir, opened };
        serve(&self.config, &self.request, probe)
    }
}

/// Begins the exchange for a request.
///
/// A request that is refused and one whose path does not decode end the exchange at
/// once, whatever is on disk. Every other request asks whether its local path is a
/// directory.
pub fn start(config: Config, request: Request) -> (r: Started)
    ensures
        match r {
            Started::Done(o) => {
                &&& !may_touch_disk(request@)
                &&& forall|probe: ProbeView| #[trigger]
                    is_outcome_of(o@, config@, request@, probe)
            },
            Started::AskDir(q) => {
                &&& may_touch_disk(request@)
                &&& q.config() == config@
                &&& q.request() == request@
                &&& local_path(request@.path, config@.root_dir) == Ok::<Seq<char>, ErrorView>(
                    q.asked(),
                )
            },
        },
{
    let get = String::from_str("GET");
    let asked = if request.method == get {
        match local_path_for_request(request.path.as_str(), config.root_dir.as_str()) {
            Ok(path) => Some(path),
            Err(_) => None,
        }
    } else {
        None
    };
    match asked {
        Some(path) => Started::AskDir(DirQuestion { config, request, path }),
        None => {
            let unprobed = Probe { is_dir: false, opened: Err(Cause { chain: Vec::new() }) };
            Started::Done(serve(&config, &request, unprobed))
        },
    }
}

/// Runs a whole exchange with answers that are known beforehand: `probe` says what the
/// disk would answer. The questions are asked in their order and answered from it, and
/// the outcome is the one that `serve` gives for the same answers.
pub fn run(config: Config, request: Request, probe: Probe) -> (o: Outcome)
    ensures
        is_outcome_of(o@, config@, request@, probe@),
{
    match start(config, request) {
        Started::Done(o) => o,
        Started::AskDir(question) => match question.answer(probe.is_dir) {
            Probed::Done(o) => o,
            Probed::AskFile(question) => question.answer(probe.opened),
        },
    }
}

/// Every path that an exchange asks about starts with the root directory.
pub proof fn lemma_questions_stay_under_root(req: RequestView, cfg: ConfigView, is_dir: bool)
    requires
        may_touch_disk(req),
    ensures
        local_path(req.path, cfg.root_dir) matches Ok(p) && cfg.root_dir.is_prefix_of(p),
        local_path_or_index(req.path, cfg.root_dir, is_dir) matches Ok(p)
            && cfg.root_dir.is_prefix_of(p),
{
    crate::path::lemma_local_path_under_root(req.path, cfg.root_dir, is_dir);
}

} // verus!
