//! The local transcription engine: which model is loaded, how audio is
//! fed to a recognizer and what is taken from its result. The engine
//! itself is the caller's; a loaded model is held here as a value of the
//! caller's type.

use vstd::prelude::*;
use vstd::string::StringExecFns;
use crate::error::{AppError, AppErrorView, prefixed};
use crate::recording::outcome::text_view;
use crate::text::{has_slice, views, contains};

verus! {

/// The number of samples fed to a recognizer at a time: a quarter of a
/// second at 16 kHz.
pub const CHUNK_SIZE: usize = 4000;

/// Which model is loaded, for the user interface.
#[derive(Debug, Clone, PartialEq, Eq)]
pub struct VoskModelStatus {
    pub loaded: bool,
    pub model_id: Option<String>,
    pub model_path: Option<String>,
}

/// A status as a mathematical value.
pub struct VoskModelStatusView {
    pub loaded: bool,
    pub model_id: Option<Seq<char>>,
    pub model_path: Option<Seq<char>>,
}

impl View for VoskModelStatus {
    type V = VoskModelStatusView;

    open spec fn view(&self) -> VoskModelStatusView {
        VoskModelStatusView {
            loaded: self.loaded,
            model_id: text_view(self.model_id),
            model_path: text_view(self.model_path),
        }
    }
}

/// Holds the loaded model (`M`), its name and where it was loaded from.
/// A model is costly to load, so one is loaded once and kept.
pub struct VoskManager<M> {
    model: Option<M>,
    model_id: Option<String>,
    model_path: Option<String>,
}

impl<M> VoskManager<M> {
    /// The loaded model.
    pub closed spec fn model(&self) -> Option<M> {
        self.model
    }

    /// The name of the loaded model.
    pub closed spec fn model_id(&self) -> Option<Seq<char>> {
        text_view(self.model_id)
    }

    /// The directory that the model was loaded from.
    pub closed spec fn model_path(&self) -> Option<Seq<char>> {
        text_view(self.model_path)
    }

    /// A manager without a model.
    pub fn new() -> (m: Self)
        ensures
            m.model() is None,
            m.model_id() is None,
            m.model_path() is None,
    {
        VoskManager { model: None, model_id: None, model_path: None }
    }

    /// Takes a model that the caller has loaded from `model_dir`; it
    /// takes the place of the one held before.
    pub fn load_model(&mut self, model_id: &str, model_dir: &str, model: M)
        ensures
            final(self).model() == Some(model),
            final(self).model_id() == Some(model_id@),
            final(self).model_path() == Some(model_dir@),
    {
        self.model = Some(model);
        self.model_id = Some(model_id.to_owned());
        self.model_path = Some(model_dir.to_owned());
    }

    /// Whether a model is loaded.
    pub fn is_loaded(&self) -> (b: bool)
        ensures
            b == self.model() is Some,
    {
        self.model.is_some()
    }

    /// Which model is loaded.
    pub fn status(&self) -> (s: VoskModelStatus)
        ensures
            s@ == (VoskModelStatusView {
                loaded: self.model() is Some,
                model_id: self.model_id(),
                model_path: self.model_path(),
            }),
    {
        VoskModelStatus {
            loaded: self.model.is_some(),
            model_id: crate::text::cloned_text(&self.model_id),
            model_path: crate::text::cloned_text(&self.model_path),
        }
    }

    /// The loaded model, for a transcription; without one there is an
    /// error.
    pub fn loaded_model(&self) -> (r: Result<&M, AppError>)
        ensures
            match self.model() {
                Some(m) => r matches Ok(got) && *got == m,
                None => r matches Err(e) && e@ == AppErrorView::Stt("No Vosk model loaded"@),
            },
    {
        match &self.model {
            Some(m) => Ok(m),
            None => Err(AppError::Stt(String::from_str("No Vosk model loaded"))),
        }
    }

    /// Lets the model go; what was held is handed back to be dropped.
    pub fn unload_model(&mut self) -> (held: Option<M>)
        ensures
            held == old(self).model(),
            final(self).model() is None,
            final(self).model_id() is None,
            final(self).model_path() is None,
    {
        self.model_id = None;
        self.model_path = None;
        self.model.take()
    }
}

/// The error where the directory of a model does not exist.
pub fn model_dir_missing_error(model_dir: &str) -> (e: AppError)
    ensures
        e@ == AppErrorView::Stt("Model directory does not exist: "@ + model_dir@),
{
    AppError::Stt(prefixed("Model directory does not exist: ", model_dir))
}

/// The error where a model was asked for that is not on disk.
pub fn model_not_downloaded_error(model_id: &str) -> (e: AppError)
    ensures
        e@ == AppErrorView::Stt(
            "Model not downloaded: "@ + model_id@ + ". Download it first."@,
        ),
{
    AppError::Stt(crate::text::concat3("Model not downloaded: ", model_id, ". Download it first."))
}

/// The bounds of the runs in which `len` samples are fed to a
/// recognizer: consecutive runs of `CHUNK_SIZE` samples, the last one
/// shorter where the samples do not fill it.
pub open spec fn feed_bounds(len: nat) -> Seq<(usize, usize)> {
    Seq::new(
        ((len + CHUNK_SIZE - 1) / (CHUNK_SIZE as int)) as nat,
        |k: int|
            (
                (k * CHUNK_SIZE) as usize,
                (if (k + 1) * CHUNK_SIZE < len {
                    (k + 1) * CHUNK_SIZE
                } else {
                    len as int
                }) as usize,
            ),
    )
}

/// Gives the bounds of the runs in which samples are fed to a
/// recognizer, each as first index and index after the last.
pub fn feed_plan(len: usize) -> (bounds: Vec<(usize, usize)>)
    ensures
        bounds@ == feed_bounds(len as nat),
        forall|k: int|
            0 <= k < bounds@.len() ==> (#[trigger] bounds@[k]).0 < bounds@[k].1 <= len
                && bounds@[k].1 - bounds@[k].0 <= CHUNK_SIZE,
        forall|k: int| 0 < k < bounds@.len() ==> (#[trigger] bounds@[k]).0 == bounds@[k - 1].1,
        bounds@.len() > 0 ==> bounds@[0].0 == 0 && bounds@[bounds@.len() - 1].1 == len,
        len == 0 ==> bounds@.len() == 0,
{
    let mut bounds: Vec<(usize, usize)> = Vec::new();
    let mut start: usize = 0;
    let ghost want = feed_bounds(len as nat);
    while start < len
        invariant
            0 <= start <= len,
            want == feed_bounds(len as nat),
            start == bounds@.len() * CHUNK_SIZE || (start == len && bounds@.len() == want.len()),
            bounds@.len() <= want.len(),
            start < len ==> bounds@.len() < want.len(),
            forall|k: int| 0 <= k < bounds@.len() ==> #[trigger] bounds@[k] == want[k],
        decreases len - start,
    {
        let end: usize = if len - start > CHUNK_SIZE {
            start + CHUNK_SIZE
        } else {
            len
        };
        let ghost k = bounds@.len() as int;
        proof {
            assert(start == k * 4000);
            assert((k + 1) * 4000 == k * 4000 + 4000) by (nonlinear_arith);
            if end == len {
                assert(want.len() == k + 1) by (nonlinear_arith)
                    requires
                        want.len() == (len + 3999) / 4000,
                        k * 4000 < len,
                        len <= k * 4000 + 4000,
                ;
            } else {
                assert(want.len() > k + 1) by (nonlinear_arith)
                    requires
                        want.len() == (len + 3999) / 4000,
                        len > k * 4000 + 4000,
                ;
            }
        }
        bounds.push((start, end));
        start = end;
    }
    proof {
        if len == 0 {
            assert(want.len() == 0);
        }
        assert(bounds@.len() == want.len());
        assert(bounds@ =~= want);
        assert forall|j: int| 0 <= j < bounds@.len() implies (#[trigger] bounds@[j]).0
            < bounds@[j].1 <= len && bounds@[j].1 - bounds@[j].0 <= CHUNK_SIZE by {
            assert((j + 1) * 4000 == j * 4000 + 4000) by (nonlinear_arith);
            assert(j * 4000 < len) by (nonlinear_arith)
                requires
                    0 <= j < (len + 3999) / 4000,
            ;
        }
        assert forall|j: int| 0 < j < bounds@.len() implies (#[trigger] bounds@[j]).0
            == bounds@[j - 1].1 by {
            assert((j - 1 + 1) * 4000 == j * 4000);
            assert(j * 4000 < len) by (nonlinear_arith)
                requires
                    0 <= j < (len + 3999) / 4000,
            ;
        }
        if bounds@.len() > 0 {
            let last = bounds@.len() - 1;
            assert((last + 1) * 4000 >= len) by (nonlinear_arith)
                requires
                    last + 1 == (len + 3999) / 4000,
            ;
        }
    }
    bounds
}

/// The transcript taken from a recognizer's final result: the text of a
/// single result; for a result with alternatives the text of the first,
/// or nothing where there is none.
pub fn pick_transcript(single: Option<String>, alternatives: Option<Vec<String>>) -> (text: String)
    ensures
        text@ == match single {
            Some(t) => t@,
            None => match alternatives {
                Some(a) => if a@.len() > 0 {
                    a@[0]@
                } else {
                    Seq::empty()
                },
                None => Seq::empty(),
            },
        },
{
    match single {
        Some(t) => t,
        None => match alternatives {
            Some(a) => {
                if a.len() > 0 {
                    a[0].clone()
                } else {
                    String::new()
                }
            },
            None => String::new(),
        },
    }
}

/// The part of a model's name that tells its language.
pub open spec fn language_fragment(language: Seq<char>) -> Seq<char> {
    if language == "zh"@ {
        "cn"@
    } else if language == "ja"@ {
        "ja"@
    } else if language == "ko"@ {
        "ko"@
    } else {
        "en"@
    }
}

/// The position of the first name that holds `fragment`, if any.
pub open spec fn first_with(names: Seq<Seq<char>>, fragment: Seq<char>) -> Option<int>
    decreases names.len(),
{
    if names.len() == 0 {
        None
    } else if has_slice(names[0], fragment) {
        Some(0)
    } else {
        match first_with(names.drop_first(), fragment) {
            Some(i) => Some(i + 1),
            None => None,
        }
    }
}

/// The model loaded at the start of the application: of those on disk
/// the first whose name fits the language, else the first; none where
/// there is none on disk.
pub open spec fn startup_model(downloaded: Seq<Seq<char>>, language: Seq<char>) -> Option<int> {
    if downloaded.len() == 0 {
        None
    } else {
        match first_with(downloaded, language_fragment(language)) {
            Some(i) => Some(i),
            None => Some(0),
        }
    }
}

/// Picks the model to load at the start of the application, as its
/// position among those on disk.
pub fn auto_load_vosk_model(downloaded: &Vec<String>, language: &str) -> (choice: Option<usize>)
    ensures
        match startup_model(views(downloaded@), language@) {
            Some(i) => choice == Some(i as usize) && i < downloaded@.len(),
            None => choice is None,
        },
{
    if downloaded.len() == 0 {
        return None;
    }
    let fragment: &str = if language.eq("zh") {
        "cn"
    } else if language.eq("ja") {
        "ja"
    } else if language.eq("ko") {
        "ko"
    } else {
        "en"
    };
    let mut i: usize = 0;
    assert(views(downloaded@).skip(0) =~= views(downloaded@));
    while i < downloaded.len()
        invariant
            0 <= i <= downloaded.len(),
            fragment@ == language_fragment(language@),
            first_with(views(downloaded@), fragment@) == match first_with(
                views(downloaded@).skip(i as int),
                fragment@,
            ) {
                Some(j) => Some(j + i),
                None => None,
            },
        decreases downloaded.len() - i,
    {
        proof {
            let rest = views(downloaded@).skip(i as int);
            assert(rest[0] == downloaded@[i as int]@);
            assert(rest.drop_first() =~= views(downloaded@).skip(i + 1));
        }
        if contains(downloaded[i].as_str(), fragment) {
            return Some(i);
        }
        i += 1;
    }
    Some(0)
}

} // verus!
