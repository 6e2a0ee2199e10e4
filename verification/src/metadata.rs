//! What a provider publishes about itself, so that a runtime can find and
//! configure it without knowing the backend.

use vstd::prelude::*;

verus! {

/// The context window assumed for a model whose window is not known.
pub const DEFAULT_CONTEXT_LIMIT: usize = 128000;

/// One configuration key of a provider.
#[derive(Debug, Clone, PartialEq, Eq)]
pub struct ConfigKey {
    pub name: String,
    /// Whether the provider cannot be built without the key.
    pub required: bool,
    /// Whether the value is a credential, never to be shown.
    pub secret: bool,
    /// The value used where the key is not set.
    pub default: Option<String>,
}

/// The mathematical reading of a [`ConfigKey`].
pub struct ConfigKeyView {
    pub name: Seq<char>,
    pub required: bool,
    pub secret: bool,
    pub default: Option<Seq<char>>,
}

impl ConfigKeyView {
    /// A required key has no default.
    pub open spec fn well_formed(self) -> bool {
        self.required ==> self.default is None
    }
}

impl View for ConfigKey {
    type V = ConfigKeyView;

    open spec fn view(&self) -> ConfigKeyView {
        ConfigKeyView {
            name: self.name@,
            required: self.required,
            secret: self.secret,
            default: match self.default {
                Some(value) => Some(value@),
                None => None,
            },
        }
    }
}

impl ConfigKey {
    /// Describes a key. A required key takes no default.
    pub fn new(name: &str, required: bool, secret: bool, default: Option<&str>) -> (r: ConfigKey)
        requires
            required ==> default is None,
        ensures
            r@.well_formed(),
            r@ == (ConfigKeyView {
                name: name@,
                required,
                secret,
                default: match default {
                    Some(value) => Some(value@),
                    None => None,
                },
            }),
    {
        ConfigKey {
            name: String::from_str(name),
            required,
            secret,
            default: match default {
                Some(value) => Some(String::from_str(value)),
                None => None,
            },
        }
    }
}

/// A model that a provider is known to serve.
#[derive(Debug, Clone, PartialEq, Eq)]
pub struct ModelInfo {
    pub name: String,
    pub context_limit: usize,
}

/// The mathematical reading of a [`ModelInfo`].
pub struct ModelInfoView {
    pub name: Seq<char>,
    pub context_limit: usize,
}

impl View for ModelInfo {
    type V = ModelInfoView;

    open spec fn view(&self) -> ModelInfoView {
        ModelInfoView { name: self.name@, context_limit: self.context_limit }
    }
}

/// The description of a provider.
#[derive(Debug, Clone, PartialEq, Eq)]
pub struct ProviderMetadata {
    /// The key under which the provider is registered.
    pub name: String,
    pub display_name: String,
    pub description: String,
    pub default_model: String,
    /// The models known to be served, in the order in which to show them.
    pub known_models: Vec<ModelInfo>,
    pub model_doc_link: String,
    pub config_keys: Vec<ConfigKey>,
}

/// The mathematical reading of a [`ProviderMetadata`].
pub struct MetadataView {
    pub name: Seq<char>,
    pub display_name: Seq<char>,
    pub description: Seq<char>,
    pub default_model: Seq<char>,
    pub known_models: Seq<ModelInfoView>,
    pub model_doc_link: Seq<char>,
    pub config_keys: Seq<ConfigKeyView>,
}

impl MetadataView {
    /// Every configuration key is well formed.
    pub open spec fn well_formed(self) -> bool {
        forall|i: int| 0 <= i < self.config_keys.len() ==> (#[trigger] self.config_keys[i]).well_formed()
    }
}

impl View for ProviderMetadata {
    type V = MetadataView;

    open spec fn view(&self) -> MetadataView {
        MetadataView {
            name: self.name@,
            display_name: self.display_name@,
            description: self.description@,
            default_model: self.default_model@,
            known_models: self.known_models@.map_values(|model: ModelInfo| model@),
            model_doc_link: self.model_doc_link@,
            config_keys: self.config_keys@.map_values(|key: ConfigKey| key@),
        }
    }
}

/// The known models that a list of names stands for, each with the default
/// context window.
pub open spec fn models_named(names: Seq<Seq<char>>) -> Seq<ModelInfoView> {
    names.map_values(
        |name: Seq<char>| ModelInfoView { name, context_limit: DEFAULT_CONTEXT_LIMIT },
    )
}

impl ProviderMetadata {
    /// Describes a provider. The known models keep the order of
    /// `model_names`.
    pub fn new(
        name: &str,
        display_name: &str,
        description: &str,
        default_model: &str,
        model_names: Vec<&str>,
        model_doc_link: &str,
        config_keys: Vec<ConfigKey>,
    ) -> (r: ProviderMetadata)
        ensures
            r@ == (MetadataView {
                name: name@,
                display_name: display_name@,
                description: description@,
                default_model: default_model@,
                known_models: models_named(model_names@.map_values(|n: &str| n@)),
                model_doc_link: model_doc_link@,
                config_keys: config_keys@.map_values(|key: ConfigKey| key@),
            }),
    {
        let mut known_models: Vec<ModelInfo> = Vec::new();
        let mut i: usize = 0;
        while i < model_names.len()
            invariant
                i <= model_names.len(),
                known_models@.map_values(|model: ModelInfo| model@) == models_named(
                    model_names@.map_values(|n: &str| n@).take(i as int),
                ),
            decreases model_names.len() - i,
        {
            let ghost prior = known_models@.map_values(|model: ModelInfo| model@);
            let model = ModelInfo {
                name: String::from_str(model_names[i]),
                context_limit: DEFAULT_CONTEXT_LIMIT,
            };
            known_models.push(model);
            proof {
                assert(known_models@.map_values(|model: ModelInfo| model@) =~= prior.push(model@));
                assert(known_models@.map_values(|model: ModelInfo| model@) =~= models_named(
                    model_names@.map_values(|n: &str| n@).take(i + 1),
                ));
            }
            i = i + 1;
        }
        proof {
            assert(model_names@.map_values(|n: &str| n@).take(i as int) == model_names@.map_values(
                |n: &str| n@,
            ));
        }
        ProviderMetadata {
            name: String::from_str(name),
            display_name: String::from_str(display_name),
            description: String::from_str(description),
            default_model: String::from_str(default_model),
            known_models,
            model_doc_link: String::from_str(model_doc_link),
            config_keys,
        }
    }
}

} // verus!
