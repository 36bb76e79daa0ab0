//! The catalogue of local formatting models.

use vstd::prelude::*;
use vstd::string::*;
use crate::text::{split, split_char};

verus! {

/// What can go wrong when finding or fetching a model.
#[derive(Debug)]
pub enum ModelError {
    DownloadFailed(String),
    NotFound(String),
    IoError(std::io::Error),
}

/// A model of the catalogue, with whether it is on disk.
#[derive(Debug, Clone)]
pub struct LlmModelInfo {
    pub name: String,
    pub size_mb: u64,
    pub downloaded: bool,
    pub description: String,
    pub hf_repo: String,
    pub filename: String,
}

/// A catalogue entry: name, repository, file name and approximate size.
#[derive(Debug, Clone)]
pub struct ModelEntry {
    pub name: String,
    pub hf_repo: String,
    pub filename: String,
    pub size_mb: u64,
}

pub struct ModelEntryModel {
    pub name: Seq<char>,
    pub hf_repo: Seq<char>,
    pub filename: Seq<char>,
    pub size_mb: u64,
}

impl View for ModelEntry {
    type V = ModelEntryModel;

    open spec fn view(&self) -> ModelEntryModel {
        ModelEntryModel {
            name: self.name@,
            hf_repo: self.hf_repo@,
            filename: self.filename@,
            size_mb: self.size_mb,
        }
    }
}

/// The models on offer, smallest first.
pub open spec fn model_table() -> Seq<ModelEntryModel> {
    seq![
        ModelEntryModel {
            name: "SmolLM2-135M-Instruct-Q4_K_M"@,
            hf_repo: "bartowski/SmolLM2-135M-Instruct-GGUF"@,
            filename: "SmolLM2-135M-Instruct-Q4_K_M.gguf"@,
            size_mb: 80,
        },
        ModelEntryModel {
            name: "SmolLM2-360M-Instruct-Q4_K_M"@,
            hf_repo: "bartowski/SmolLM2-360M-Instruct-GGUF"@,
            filename: "SmolLM2-360M-Instruct-Q4_K_M.gguf"@,
            size_mb: 200,
        },
        ModelEntryModel {
            name: "SmolLM2-1.7B-Instruct-Q5_K_M"@,
            hf_repo: "bartowski/SmolLM2-1.7B-Instruct-GGUF"@,
            filename: "SmolLM2-1.7B-Instruct-Q5_K_M.gguf"@,
            size_mb: 1200,
        },
    ]
}

fn entry(name: &str, hf_repo: &str, filename: &str, size_mb: u64) -> (r: ModelEntry)
    ensures
        r@ == (ModelEntryModel { name: name@, hf_repo: hf_repo@, filename: filename@, size_mb }),
{
    ModelEntry {
        name: String::from_str(name),
        hf_repo: String::from_str(hf_repo),
        filename: String::from_str(filename),
        size_mb,
    }
}

/// The catalogue, in the order of [`model_table`].
pub fn available_models() -> (r: Vec<ModelEntry>)
    ensures
        r.len() == model_table().len(),
        forall|i: int| 0 <= i < r.len() ==> #[trigger] r[i]@ == model_table()[i],
{
    let mut v: Vec<ModelEntry> = Vec::new();
    v.push(entry(
        "SmolLM2-135M-Instruct-Q4_K_M",
        "bartowski/SmolLM2-135M-Instruct-GGUF",
        "SmolLM2-135M-Instruct-Q4_K_M.gguf",
        80,
    ));
    v.push(entry(
        "SmolLM2-360M-Instruct-Q4_K_M",
        "bartowski/SmolLM2-360M-Instruct-GGUF",
        "SmolLM2-360M-Instruct-Q4_K_M.gguf",
        200,
    ));
    v.push(entry(
        "SmolLM2-1.7B-Instruct-Q5_K_M",
        "bartowski/SmolLM2-1.7B-Instruct-GGUF",
        "SmolLM2-1.7B-Instruct-Q5_K_M.gguf",
        1200,
    ));
    v
}

/// The message for a model name that is not in the catalogue.
pub open spec fn not_found_message(name: Seq<char>) -> Seq<char> {
    "Model '"@ + name + "' not found"@
}

/// The catalogue entry with this name, or `NotFound` with
/// `Model '<name>' not found`.
pub fn lookup_model(model_name: &str) -> (r: Result<ModelEntry, ModelError>)
    ensures
        match r {
            Ok(e) => exists|i: int| 0 <= i < model_table().len() && model_table()[i] == e@ && e@.name == model_name@,
            Err(ModelError::NotFound(m)) => m@ == not_found_message(model_name@) && forall|i: int|
                0 <= i < model_table().len() ==> model_table()[i].name != model_name@,
            Err(_) => false,
        },
{
    let models = available_models();
    let mut i: usize = 0;
    while i < models.len()
        invariant
            i <= models.len(),
            models.len() == model_table().len(),
            forall|k: int| 0 <= k < models.len() ==> #[trigger] models[k]@ == model_table()[k],
            forall|k: int| 0 <= k < i ==> model_table()[k].name != model_name@,
        decreases models.len() - i,
    {
        assert(models[i as int]@ == model_table()[i as int]);
        if crate::text::str_eq(models[i].name.as_str(), model_name) {
            return Ok(models[i].clone_entry());
        }
        i = i + 1;
    }
    Err(ModelError::NotFound(String::from_str("Model '").concat(model_name).concat("' not found")))
}

impl ModelEntry {
    pub fn clone_entry(&self) -> (r: ModelEntry)
        ensures
            r@ == self@,
    {
        ModelEntry {
            name: self.name.clone(),
            hf_repo: self.hf_repo.clone(),
            filename: self.filename.clone(),
            size_mb: self.size_mb,
        }
    }
}

/// The second `-`-separated part of a model name, or nothing.
pub open spec fn size_tag(name: Seq<char>) -> Seq<char> {
    if split(name, '-').len() > 1 {
        split(name, '-')[1]
    } else {
        Seq::<char>::empty()
    }
}

/// `SmolLM2 <size tag> quantized model`.
pub open spec fn model_description(name: Seq<char>) -> Seq<char> {
    "SmolLM2 "@ + size_tag(name) + " quantized model"@
}

/// Describes a catalogue model by its size tag.
pub fn describe_model(name: &str) -> (r: String)
    ensures
        r@ == model_description(name@),
{
    let parts = split_char(name, '-');
    let tag = if parts.len() > 1 {
        assert(parts.deep_view()[1] == parts[1]@);
        parts[1].as_str()
    } else {
        ""
    };
    proof {
        if parts.len() <= 1 {
            assert(tag@ == Seq::<char>::empty()) by {
                reveal_strlit("");
            }
        }
    }
    String::from_str("SmolLM2 ").concat(tag).concat(" quantized model")
}

/// The catalogue with each model's download status, given in catalogue
/// order.
pub fn list_models(downloaded: &[bool]) -> (r: Vec<LlmModelInfo>)
    requires
        downloaded@.len() == model_table().len(),
    ensures
        r.len() == model_table().len(),
        forall|i: int| 0 <= i < r.len() ==> {
            let m = #[trigger] model_table()[i];
            &&& r[i].name@ == m.name
            &&& r[i].size_mb == m.size_mb
            &&& r[i].downloaded == downloaded@[i]
            &&& r[i].description@ == model_description(m.name)
            &&& r[i].hf_repo@ == m.hf_repo
            &&& r[i].filename@ == m.filename
        },
{
    let models = available_models();
    let mut out: Vec<LlmModelInfo> = Vec::new();
    let mut i: usize = 0;
    while i < models.len()
        invariant
            i <= models.len(),
            models.len() == model_table().len(),
            downloaded@.len() == model_table().len(),
            forall|k: int| 0 <= k < models.len() ==> #[trigger] models[k]@ == model_table()[k],
            out.len() == i,
            forall|k: int| 0 <= k < i ==> {
                let m = #[trigger] model_table()[k];
                &&& out[k].name@ == m.name
                &&& out[k].size_mb == m.size_mb
                &&& out[k].downloaded == downloaded@[k]
                &&& out[k].description@ == model_description(m.name)
                &&& out[k].hf_repo@ == m.hf_repo
                &&& out[k].filename@ == m.filename
            },
        decreases models.len() - i,
    {
        let e = &models[i];
        assert(e@ == model_table()[i as int]);
        out.push(LlmModelInfo {
            name: e.name.clone(),
            size_mb: e.size_mb,
            downloaded: downloaded[i],
            description: describe_model(e.name.as_str()),
            hf_repo: e.hf_repo.clone(),
            filename: e.filename.clone(),
        });
        i = i + 1;
    }
    out
}

/// Where a catalogue model is fetched from.
pub fn model_download_url(entry: &ModelEntry) -> (r: String)
    ensures
        r@ == "https://huggingface.co/"@ + entry.hf_repo@ + "/resolve/main/"@ + entry.filename@,
{
    String::from_str("https://huggingface.co/").concat(entry.hf_repo.as_str()).concat(
        "/resolve/main/",
    ).concat(entry.filename.as_str())
}


/// The catalogue offers three SmolLM2 models, smallest first: each file is
/// its model's name with `.gguf` added, no name occurs twice, and the
/// sizes grow.
pub proof fn law_catalogue_entries()
    ensures
        model_table().len() == 3,
        forall|i: int| 0 <= i < 3 ==> (#[trigger] model_table()[i]).filename == model_table()[i].name
            + ".gguf"@,
        forall|i: int, j: int| 0 <= i < j < 3 ==> model_table()[i].size_mb < model_table()[j].size_mb,
        forall|i: int, j: int| 0 <= i < j < 3 ==> model_table()[i].name != model_table()[j].name,
        model_table()[0].size_mb == 80 && model_table()[1].size_mb == 200 && model_table()[2].size_mb
            == 1200,
{
    reveal_strlit("SmolLM2-135M-Instruct-Q4_K_M");
    reveal_strlit("SmolLM2-360M-Instruct-Q4_K_M");
    reveal_strlit("SmolLM2-1.7B-Instruct-Q5_K_M");
    reveal_strlit("SmolLM2-135M-Instruct-Q4_K_M.gguf");
    reveal_strlit("SmolLM2-360M-Instruct-Q4_K_M.gguf");
    reveal_strlit("SmolLM2-1.7B-Instruct-Q5_K_M.gguf");
    reveal_strlit(".gguf");
    let t = model_table();
    assert(t[0].filename =~= t[0].name + ".gguf"@);
    assert(t[1].filename =~= t[1].name + ".gguf"@);
    assert(t[2].filename =~= t[2].name + ".gguf"@);
    assert(t[0].name[8] != t[1].name[8]);
    assert(t[0].name[9] != t[2].name[9]);
    assert(t[1].name[8] != t[2].name[8]);
}

} // verus!
