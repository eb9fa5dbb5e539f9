//! The model catalog: the models found on disk or the built-in mock models,
//! and the one model that is loaded at a time.

use vstd::prelude::*;

use crate::text::{push_str, str_eq, string_of, to_lowercase, lowercase_of};
use crate::types::{ModelInfo, ModelInfoView, ModelType, PortInfo, PortView, models_view, ports_view};

verus! {

/// Whether the value of the mock-mode switch turns it on: `1`, `true` or
/// `yes`, in any case.
pub open spec fn mock_switch_on(lower: Seq<char>) -> bool {
    lower == "1"@ || lower == "true"@ || lower == "yes"@
}

/// Whether the value of the mock-mode switch turns it on.
pub fn is_mock_value(value: &str) -> (r: bool)
    ensures
        r == mock_switch_on(lowercase_of(value@)),
{
    let v = to_lowercase(value);
    str_eq(v.as_str(), "1") || str_eq(v.as_str(), "true") || str_eq(v.as_str(), "yes")
}

/// Whether a directory entry is a model, by its extension.
pub fn is_model_extension(extension: Option<&str>) -> (r: bool)
    ensures
        r == (extension matches Some(e) && (e@ == "mlmodel"@ || e@ == "mlpackage"@)),
{
    match extension {
        Some(e) => str_eq(e, "mlmodel") || str_eq(e, "mlpackage"),
        None => false,
    }
}

/// A model of the catalog and where it lives.
#[derive(Debug)]
pub struct RegisteredModel {
    pub info: ModelInfo,
    pub path: String,
}

/// A loaded model.
#[derive(Clone, Debug)]
pub struct ModelHandle {
    pub id: String,
    pub path: String,
}

fn port(name: &str, port_type: &str, shape: Option<Vec<i64>>) -> (r: PortInfo)
    ensures
        r.name@ == name@,
        r.port_type@ == port_type@,
        r.shape == shape,
{
    PortInfo { name: string_of(name), port_type: string_of(port_type), shape }
}

/// The id of the built-in demo model.
pub open spec fn demo_id() -> Seq<char> {
    "demo-echo"@
}

/// The built-in demo model.
pub open spec fn demo_model_view() -> ModelInfoView {
    ModelInfoView {
        id: "demo-echo"@,
        name: "Echo Demo"@,
        model_type: ModelType::Text,
        description: Some(
            "Built-in demo model that echoes your input. Load a real CoreML model to run actual inference."@,
        ),
        author: Some("CoreML Playground"@),
        input_schema: seq![PortView { name: "text"@, port_type: "String"@, shape: None }],
        output_schema: seq![PortView { name: "echo"@, port_type: "String"@, shape: None }],
        file_size_bytes: 0,
    }
}

/// A built-in demo model that echoes its input, so that a first visit works
/// without any model on disk.
pub fn create_demo_model() -> (r: ModelInfo)
    ensures
        r@ == demo_model_view(),
{
    let mut input_schema: Vec<PortInfo> = Vec::new();
    input_schema.push(port("text", "String", None));
    let mut output_schema: Vec<PortInfo> = Vec::new();
    output_schema.push(port("echo", "String", None));
    let r = ModelInfo {
        id: string_of("demo-echo"),
        name: string_of("Echo Demo"),
        model_type: ModelType::Text,
        description: Some(
            string_of(
                "Built-in demo model that echoes your input. Load a real CoreML model to run actual inference.",
            ),
        ),
        author: Some(string_of("CoreML Playground")),
        input_schema,
        output_schema,
        file_size_bytes: 0,
    };
    assert(r@.input_schema =~= demo_model_view().input_schema);
    assert(r@.output_schema =~= demo_model_view().output_schema);
    r
}

/// The metadata of a model file found on disk, before the bridge reads it:
/// its name, its size, and nothing else known.
pub fn scanned_model_info(id: &str, name: &str, file_size_bytes: u64) -> (r: ModelInfo)
    ensures
        r@.id == id@,
        r@.name == name@,
        r@.model_type == ModelType::Unknown,
        r@.description is None,
        r@.author is None,
        r@.input_schema.len() == 0,
        r@.output_schema.len() == 0,
        r@.file_size_bytes == file_size_bytes,
{
    ModelInfo {
        id: string_of(id),
        name: string_of(name),
        model_type: ModelType::Unknown,
        description: None,
        author: None,
        input_schema: Vec::new(),
        output_schema: Vec::new(),
        file_size_bytes,
    }
}

/// The ids of a list of models.
pub open spec fn catalog_ids(v: Seq<RegisteredModel>) -> Seq<Seq<char>> {
    v.map_values(|m: RegisteredModel| m.info.id@)
}

/// No id occurs twice.
pub open spec fn unique_ids(v: Seq<RegisteredModel>) -> bool {
    forall|i: int, j: int| 0 <= i < j < v.len() ==> v[i].info.id@ != v[j].info.id@
}

/// The position of the model with id `id`, if any.
pub open spec fn find_id(v: Seq<RegisteredModel>, id: Seq<char>) -> Option<int> {
    if exists|i: int| 0 <= i < v.len() && v[i].info.id@ == id {
        Some(choose|i: int| 0 <= i < v.len() && v[i].info.id@ == id)
    } else {
        None
    }
}

/// The models known to the registry, each id once.
pub struct Catalog {
    pub models: Vec<RegisteredModel>,
}

impl Catalog {
    /// The catalog holds each id once.
    pub open spec fn well_formed(&self) -> bool {
        unique_ids(self.models@)
    }

    /// An empty catalog.
    pub fn new() -> (r: Catalog)
        ensures
            r.well_formed(),
            r.models@.len() == 0,
    {
        Catalog { models: Vec::new() }
    }

    /// The position of the model with the given id.
    pub fn position(&self, id: &str) -> (r: Option<usize>)
        requires
            self.well_formed(),
        ensures
            match r {
                Some(i) => i < self.models@.len() && self.models@[i as int].info.id@ == id@,
                None => forall|i: int| 0 <= i < self.models@.len() ==> self.models@[i].info.id@ != id@,
            },
    {
        let mut i: usize = 0;
        while i < self.models.len()
            invariant
                i <= self.models@.len(),
                forall|j: int| 0 <= j < i ==> self.models@[j].info.id@ != id@,
            decreases self.models.len() - i,
        {
            if str_eq(self.models[i].info.id.as_str(), id) {
                return Some(i);
            }
            i = i + 1;
        }
        None
    }

    /// Adds a model, replacing the one with the same id if there is one.
    pub fn insert(&mut self, m: RegisteredModel)
        requires
            old(self).well_formed(),
        ensures
            final(self).well_formed(),
            exists|i: int| 0 <= i < final(self).models@.len() && #[trigger] final(self).models@[i] == m,
            forall|i: int|
                0 <= i < old(self).models@.len() && old(self).models@[i].info.id@ != m.info.id@ ==> exists|j: int|
                    0 <= j < final(self).models@.len() && #[trigger] final(self).models@[j] == old(self).models@[i],
            final(self).models@.len() <= old(self).models@.len() + 1,
    {
        let ghost before = self.models@;
        match self.position(m.info.id.as_str()) {
            Some(i) => {
                self.models.remove(i);
                self.models.insert(i, m);
                assert(self.models@ == before.update(i as int, m));
                assert(self.models@[i as int] == m);
                assert forall|k: int| 0 <= k < before.len() && before[k].info.id@ != m.info.id@ implies exists|j: int|
                    0 <= j < self.models@.len() && #[trigger] self.models@[j] == before[k] by {
                    assert(self.models@[k] == before[k]);
                }
            },
            None => {
                self.models.push(m);
                assert(self.models@[before.len() as int] == m);
                assert forall|k: int| 0 <= k < before.len() && before[k].info.id@ != m.info.id@ implies exists|j: int|
                    0 <= j < self.models@.len() && #[trigger] self.models@[j] == before[k] by {
                    assert(self.models@[k] == before[k]);
                }
            },
        }
    }

    /// Adds the demo model unless a model with its id is there.
    pub fn ensure_demo_model(&mut self)
        requires
            old(self).well_formed(),
        ensures
            final(self).well_formed(),
            exists|i: int| 0 <= i < final(self).models@.len() && #[trigger] final(self).models@[i].info.id@ == demo_id(),
            forall|i: int|
                #![trigger old(self).models@[i]]
                0 <= i < old(self).models@.len() ==> exists|j: int|
                    0 <= j < final(self).models@.len() && #[trigger] final(self).models@[j] == old(self).models@[i],
    {
        match self.position("demo-echo") {
            Some(i) => {
                assert(self.models@[i as int].info.id@ == demo_id());
                assert forall|k: int| #![trigger self.models@[k]] 0 <= k < self.models@.len() implies exists|j: int|
                    0 <= j < self.models@.len() && #[trigger] self.models@[j] == self.models@[k] by {}
            },
            None => {
                let ghost before = self.models@;
                let info = create_demo_model();
                self.models.push(RegisteredModel { info, path: string_of("/builtin/demo-echo") });
                assert(self.models@[before.len() as int].info.id@ == demo_id());
                assert forall|k: int| #![trigger before[k]] 0 <= k < before.len() implies exists|j: int|
                    0 <= j < self.models@.len() && #[trigger] self.models@[j] == before[k] by {
                    assert(self.models@[k] == before[k]);
                }
            },
        }
    }

    /// Copies of the metadata of every model, in catalog order.
    pub fn list_models(&self) -> (r: Vec<ModelInfo>)
        ensures
            models_view(r@) == self.models@.map_values(|m: RegisteredModel| m.info@),
    {
        let mut out: Vec<ModelInfo> = Vec::new();
        let mut i: usize = 0;
        while i < self.models.len()
            invariant
                i <= self.models@.len(),
                models_view(out@) == self.models@.subrange(0, i as int).map_values(|m: RegisteredModel| m.info@),
            decreases self.models.len() - i,
        {
            let ghost before = out@;
            out.push(self.models[i].info.copy_of());
            assert(models_view(out@) =~= models_view(before).push(self.models@[i as int].info@));
            assert(self.models@.subrange(0, i + 1).map_values(|m: RegisteredModel| m.info@) =~= self.models@.subrange(
                0,
                i as int,
            ).map_values(|m: RegisteredModel| m.info@).push(self.models@[i as int].info@));
            i = i + 1;
        }
        assert(self.models@.subrange(0, self.models@.len() as int) == self.models@);
        out
    }

    /// A copy of the metadata of the model with the given id.
    pub fn get_model_info(&self, id: &str) -> (r: Option<ModelInfo>)
        requires
            self.well_formed(),
        ensures
            match r {
                Some(info) => exists|i: int|
                    0 <= i < self.models@.len() && #[trigger] self.models@[i].info.id@ == id@ && info@
                        == self.models@[i].info@,
                None => forall|i: int| 0 <= i < self.models@.len() ==> #[trigger] self.models@[i].info.id@ != id@,
            },
    {
        match self.position(id) {
            Some(i) => Some(self.models[i].info.copy_of()),
            None => None,
        }
    }
}

fn mock_entry(
    id: &str,
    name: &str,
    model_type: ModelType,
    description: &str,
    author: &str,
    input_schema: Vec<PortInfo>,
    output_schema: Vec<PortInfo>,
    file_size_bytes: u64,
    path: &str,
) -> (r: RegisteredModel)
    ensures
        r.info@ == (ModelInfoView {
            id: id@,
            name: name@,
            model_type,
            description: Some(description@),
            author: Some(author@),
            input_schema: ports_view(input_schema@),
            output_schema: ports_view(output_schema@),
            file_size_bytes,
        }),
        r.path@ == path@,
{
    RegisteredModel {
        info: ModelInfo {
            id: string_of(id),
            name: string_of(name),
            model_type,
            description: Some(string_of(description)),
            author: Some(string_of(author)),
            input_schema,
            output_schema,
            file_size_bytes,
        },
        path: string_of(path),
    }
}

/// The mock image classifier.
pub open spec fn mobilenet_view() -> ModelInfoView {
    ModelInfoView {
        id: "mock-mobilenetv2"@,
        name: "MobileNetV2"@,
        model_type: ModelType::Vision,
        description: Some(
            "Image classification model trained on ImageNet. Classifies images into 1000 categories with high accuracy and low latency."@,
        ),
        author: Some("Apple"@),
        input_schema: seq![PortView { name: "image"@, port_type: "Image"@, shape: Some(seq![1i64, 3, 224, 224]) }],
        output_schema: seq![
            PortView { name: "classLabel"@, port_type: "String"@, shape: None },
            PortView { name: "classLabelProbs"@, port_type: "Dictionary"@, shape: None },
        ],
        file_size_bytes: 14_232_576,
    }
}

/// The mock text sentiment model.
pub open spec fn sentiment_view() -> ModelInfoView {
    ModelInfoView {
        id: "mock-textsentiment"@,
        name: "TextSentiment"@,
        model_type: ModelType::Text,
        description: Some(
            "Sentiment analysis model for English text. Returns a positive/negative label and confidence score."@,
        ),
        author: Some("Create ML"@),
        input_schema: seq![PortView { name: "text"@, port_type: "String"@, shape: None }],
        output_schema: seq![
            PortView { name: "label"@, port_type: "String"@, shape: None },
            PortView { name: "score"@, port_type: "Float64"@, shape: None },
        ],
        file_size_bytes: 2_457_600,
    }
}

/// The mock speech-to-text model.
pub open spec fn whisper_view() -> ModelInfoView {
    ModelInfoView {
        id: "mock-whispertiny"@,
        name: "WhisperTiny"@,
        model_type: ModelType::Audio,
        description: Some(
            "Tiny variant of Whisper for speech-to-text. Fast transcription with reasonable accuracy for short audio clips."@,
        ),
        author: Some("OpenAI (converted)"@),
        input_schema: seq![PortView { name: "audio"@, port_type: "MultiArray"@, shape: Some(seq![1i64, 80, 3000]) }],
        output_schema: seq![PortView { name: "text"@, port_type: "String"@, shape: None }],
        file_size_bytes: 78_643_200,
    }
}

/// The metadata of the mock catalog, in order.
pub open spec fn mock_catalog_view() -> Seq<ModelInfoView> {
    seq![demo_model_view(), mobilenet_view(), sentiment_view(), whisper_view()]
}

/// Where the models of the mock catalog live, in order.
pub open spec fn mock_paths() -> Seq<Seq<char>> {
    seq![
        "/builtin/demo-echo"@,
        "/mock/MobileNetV2.mlmodel"@,
        "/mock/TextSentiment.mlmodel"@,
        "/mock/WhisperTiny.mlpackage"@,
    ]
}

/// The metadata of a list of models.
pub open spec fn catalog_infos(v: Seq<RegisteredModel>) -> Seq<ModelInfoView> {
    v.map_values(|m: RegisteredModel| m.info@)
}

/// The paths of a list of models.
pub open spec fn catalog_paths(v: Seq<RegisteredModel>) -> Seq<Seq<char>> {
    v.map_values(|m: RegisteredModel| m.path@)
}

/// The mock models: the demo model, an image classifier, a text sentiment
/// model and a speech model.
pub fn mock_models() -> (r: Catalog)
    ensures
        r.well_formed(),
        catalog_infos(r.models@) == mock_catalog_view(),
        catalog_paths(r.models@) == mock_paths(),
        r.models@.len() == 4,
        catalog_ids(r.models@) == seq![demo_id(), "mock-mobilenetv2"@, "mock-textsentiment"@, "mock-whispertiny"@],
        r.models@[0].info@ == demo_model_view(),
        r.models@[1].info.model_type == ModelType::Vision,
        r.models@[2].info.model_type == ModelType::Text,
        r.models@[3].info.model_type == ModelType::Audio,
{
    let mut models: Vec<RegisteredModel> = Vec::new();
    let info = create_demo_model();
    models.push(RegisteredModel { info, path: string_of("/builtin/demo-echo") });

    let mut v_in: Vec<PortInfo> = Vec::new();
    v_in.push(port("image", "Image", Some(vec![1, 3, 224, 224])));
    let mut v_out: Vec<PortInfo> = Vec::new();
    v_out.push(port("classLabel", "String", None));
    v_out.push(port("classLabelProbs", "Dictionary", None));
    assert(ports_view(v_in@) =~= mobilenet_view().input_schema);
    assert(ports_view(v_out@) =~= mobilenet_view().output_schema);
    models.push(
        mock_entry(
            "mock-mobilenetv2",
            "MobileNetV2",
            ModelType::Vision,
            "Image classification model trained on ImageNet. Classifies images into 1000 categories with high accuracy and low latency.",
            "Apple",
            v_in,
            v_out,
            14_232_576,
            "/mock/MobileNetV2.mlmodel",
        ),
    );

    let mut t_in: Vec<PortInfo> = Vec::new();
    t_in.push(port("text", "String", None));
    let mut t_out: Vec<PortInfo> = Vec::new();
    t_out.push(port("label", "String", None));
    t_out.push(port("score", "Float64", None));
    assert(ports_view(t_in@) =~= sentiment_view().input_schema);
    assert(ports_view(t_out@) =~= sentiment_view().output_schema);
    models.push(
        mock_entry(
            "mock-textsentiment",
            "TextSentiment",
            ModelType::Text,
            "Sentiment analysis model for English text. Returns a positive/negative label and confidence score.",
            "Create ML",
            t_in,
            t_out,
            2_457_600,
            "/mock/TextSentiment.mlmodel",
        ),
    );

    let mut a_in: Vec<PortInfo> = Vec::new();
    a_in.push(port("audio", "MultiArray", Some(vec![1, 80, 3000])));
    let mut a_out: Vec<PortInfo> = Vec::new();
    a_out.push(port("text", "String", None));
    assert(ports_view(a_in@) =~= whisper_view().input_schema);
    assert(ports_view(a_out@) =~= whisper_view().output_schema);
    models.push(
        mock_entry(
            "mock-whispertiny",
            "WhisperTiny",
            ModelType::Audio,
            "Tiny variant of Whisper for speech-to-text. Fast transcription with reasonable accuracy for short audio clips.",
            "OpenAI (converted)",
            a_in,
            a_out,
            78_643_200,
            "/mock/WhisperTiny.mlpackage",
        ),
    );
    let r = Catalog { models };
    proof {
        assert(catalog_infos(r.models@) =~= mock_catalog_view());
        assert(catalog_paths(r.models@) =~= mock_paths());
        reveal_strlit("demo-echo");
        reveal_strlit("mock-mobilenetv2");
        reveal_strlit("mock-textsentiment");
        reveal_strlit("mock-whispertiny");
        assert(catalog_ids(r.models@) =~= seq![demo_id(), "mock-mobilenetv2"@, "mock-textsentiment"@, "mock-whispertiny"@]);
        assert("demo-echo"@[0] != "mock-mobilenetv2"@[0]);
        assert("mock-mobilenetv2"@[5] != "mock-textsentiment"@[5]);
        assert("mock-mobilenetv2"@[5] != "mock-whispertiny"@[5]);
        assert("mock-textsentiment"@[5] != "mock-whispertiny"@[5]);
        assert("demo-echo"@[0] != "mock-textsentiment"@[0]);
        assert("demo-echo"@[0] != "mock-whispertiny"@[0]);
    }
    r
}

/// What a directory scan found.
pub enum ScanResult {
    /// The directory could not be read.
    Unreadable,
    /// The models found, each as its id, metadata and path.
    Found(Vec<RegisteredModel>),
}

/// The catalog after a scan: the mock models when the directory cannot be
/// read or holds no model; else the models found, plus the demo model.
pub fn catalog_from_scan(scan: ScanResult) -> (r: Catalog)
    ensures
        r.well_formed(),
        (scan is Unreadable || (scan matches ScanResult::Found(f) && f@.len() == 0)) ==> catalog_infos(r.models@)
            == mock_catalog_view() && catalog_paths(r.models@) == mock_paths(),
        exists|i: int| 0 <= i < r.models@.len() && #[trigger] r.models@[i].info.id@ == demo_id(),
{
    match scan {
        ScanResult::Unreadable => {
            let c = mock_models();
            assert(catalog_ids(c.models@)[0] == c.models@[0].info.id@);
            c
        },
        ScanResult::Found(found) => {
            if found.len() == 0 {
                let c = mock_models();
                assert(catalog_ids(c.models@)[0] == c.models@[0].info.id@);
                return c;
            }
            let mut c = Catalog::new();
            let mut rest = found;
            while rest.len() > 0
                invariant
                    c.well_formed(),
                decreases rest.len(),
            {
                let m = rest.remove(0);
                c.insert(m);
            }
            c.ensure_demo_model();
            c
        },
    }
}

/// Whether a file-system event makes the registry scan again: creations,
/// removals and changes do.
#[derive(Clone, Copy, Debug, PartialEq, Eq, Structural)]
pub enum FsEventKind {
    Create,
    Remove,
    Modify,
    Other,
}

/// Whether a file-system event makes the registry scan again.
pub fn triggers_rescan(kind: FsEventKind) -> (r: bool)
    ensures
        r == (kind != FsEventKind::Other),
{
    match kind {
        FsEventKind::Other => false,
        _ => true,
    }
}

/// The registry: the catalog and the model that is loaded.
pub struct RegistryState {
    pub catalog: Catalog,
    pub active: Option<ModelHandle>,
}

impl RegistryState {
    /// Loads a model: the loaded one, if any, is unloaded first; an unknown
    /// id is an error and changes nothing.
    pub fn load_model(&mut self, model_id: &str) -> (r: Result<ModelInfo, String>)
        requires
            old(self).catalog.well_formed(),
        ensures
            final(self).catalog == old(self).catalog,
            match r {
                Ok(info) => {
                    &&& final(self).active is Some
                    &&& final(self).active->0.id@ == model_id@
                    &&& exists|i: int|
                        0 <= i < old(self).catalog.models@.len() && #[trigger] old(self).catalog.models@[i].info.id@
                            == model_id@ && info@ == old(self).catalog.models@[i].info@ && final(self).active->0.path
                            == old(self).catalog.models@[i].path
                },
                Err(e) => e@ == "model not found: "@ + model_id@ && final(self).active == old(self).active
                    && forall|i: int|
                    0 <= i < old(self).catalog.models@.len() ==> #[trigger] old(self).catalog.models@[i].info.id@
                        != model_id@,
            },
    {
        match self.catalog.position(model_id) {
            None => {
                let mut e = string_of("model not found: ");
                push_str(&mut e, model_id);
                Err(e)
            },
            Some(i) => {
                let info = self.catalog.models[i].info.copy_of();
                let path = self.catalog.models[i].path.clone();
                self.unload_active();
                self.active = Some(ModelHandle { id: string_of(model_id), path });
                Ok(info)
            },
        }
    }

    /// Unloads the loaded model, if any.
    pub fn unload_active(&mut self)
        ensures
            final(self).active is None,
            final(self).catalog == old(self).catalog,
    {
        self.active = None;
    }

    /// The id of the loaded model.
    pub fn get_active_id(&self) -> (r: Option<String>)
        ensures
            match r {
                Some(id) => self.active matches Some(h) && id@ == h.id@,
                None => self.active is None,
            },
    {
        match &self.active {
            Some(h) => Some(h.id.clone()),
            None => None,
        }
    }
}

} // verus!
