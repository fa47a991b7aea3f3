use vstd::prelude::*;

verus! {

/// The closed set of AI backends a run can use.
#[derive(Debug, Clone, Copy, PartialEq, Eq, Structural)]
pub enum ModelType {
    GEMINI,
}

/// The text under which a model kind is written in the settings file and in
/// the command line after upper-casing.
pub open spec fn model_tag(m: ModelType) -> Seq<char> {
    match m {
        ModelType::GEMINI => "GEMINI"@,
    }
}

/// The model kind written exactly as `t`, if any.
pub open spec fn model_of_tag(t: Seq<char>) -> Option<ModelType> {
    if t == model_tag(ModelType::GEMINI) {
        Some(ModelType::GEMINI)
    } else {
        None
    }
}

/// What `str::to_uppercase` makes of a text.
pub uninterp spec fn upper_of(s: Seq<char>) -> Seq<char>;

/// Relies on `str::to_uppercase`: the upper-case form of the text, which
/// depends on the characters alone.
#[verifier::external_body]
fn to_upper(s: &str) -> (r: String)
    ensures
        r@ == upper_of(s@),
{
    s.to_uppercase()
}

/// The entries of the interactive model menu, in order.
pub open spec fn menu_model(index: int) -> Option<ModelType> {
    if index == 0 {
        Some(ModelType::GEMINI)
    } else {
        None
    }
}

impl ModelType {
    /// The tag of this model kind.
    pub fn tag(&self) -> (r: String)
        ensures
            r@ == model_tag(*self),
    {
        match self {
            ModelType::GEMINI => String::from_str("GEMINI"),
        }
    }

    /// Reads a model kind from its exact tag; any other text names no kind.
    pub fn from_tag(t: &str) -> (r: Option<ModelType>)
        ensures
            r == model_of_tag(t@),
    {
        let gemini = ModelType::GEMINI.tag();
        let given = String::from_str(t);
        if given == gemini {
            Some(ModelType::GEMINI)
        } else {
            None
        }
    }

    /// Reads a model kind from a name in any letter case: the name is
    /// upper-cased and must then be the kind's tag.
    pub fn parse_name(name: &str) -> (r: Option<ModelType>)
        ensures
            r == model_of_tag(upper_of(name@)),
    {
        let upper = to_upper(name);
        ModelType::from_tag(upper.as_str())
    }

    /// The model kind at a position of the interactive model menu.
    pub fn from_menu_index(index: usize) -> (r: Option<ModelType>)
        ensures
            r == menu_model(index as int),
    {
        if index == 0 {
            Some(ModelType::GEMINI)
        } else {
            None
        }
    }
}

/// A backend bound to one Gemini credential.
#[derive(Debug)]
pub struct GeminiModel {
    api_key: String,
}

impl GeminiModel {
    pub closed spec fn key(&self) -> Seq<char> {
        self.api_key@
    }

    /// Binds a backend to a credential; never fails.
    pub fn new(api_key: String) -> (r: Self)
        ensures
            r.key() == api_key@,
    {
        Self { api_key }
    }

    /// The credential this backend is bound to.
    pub fn api_key(&self) -> (r: &str)
        ensures
            r@ == self.key(),
    {
        self.api_key.as_str()
    }
}

/// A concrete backend instance, one variant per model kind.
#[derive(Debug)]
pub enum BackendModel {
    Gemini(GeminiModel),
}

impl BackendModel {
    pub open spec fn kind(&self) -> ModelType {
        match self {
            BackendModel::Gemini(_) => ModelType::GEMINI,
        }
    }

    pub open spec fn key(&self) -> Seq<char> {
        match self {
            BackendModel::Gemini(g) => g.key(),
        }
    }
}

/// Builds backend instances from a model kind and a credential.
pub struct ModelFactory;

impl ModelFactory {
    /// The backend of the given kind, bound to the given credential.
    pub fn create_model(model_type: ModelType, key: String) -> (r: BackendModel)
        ensures
            r.kind() == model_type,
            r.key() == key@,
    {
        match model_type {
            ModelType::GEMINI => BackendModel::Gemini(GeminiModel::new(key)),
        }
    }
}

} // verus!
