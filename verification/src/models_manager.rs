//! The models that the host offers: what is known of each, how the list
//! for the picker is built and when it is refreshed.

use vstd::prelude::*;
use vstd::string::*;
use crate::config_types::ReasoningEffort;
use crate::text::after_last;
use crate::text::concat2;
use crate::text::concat3;
use crate::text::decimal_digits;
use crate::text::last_segment;
use crate::text::push_decimal;
use crate::text::str_eq;
use crate::text::trim_end_matches;
use crate::text::without_trailing;

verus! {

/// Strategy for refreshing the available models.
#[derive(Debug, Clone, Copy, PartialEq, Eq, Structural)]
pub enum RefreshStrategy {
    /// Always fetch from the network, ignoring the cache.
    Online,
    /// Only use cached data, never fetch from the network.
    Offline,
    /// Use the cache if it is there and fresh, otherwise fetch from the
    /// network.
    OnlineIfUncached,
}

/// How the user is signed in.
#[derive(Debug, Clone, Copy, PartialEq, Eq, Structural)]
pub enum AuthMode {
    ApiKey,
    Chatgpt,
}

/// Whether a model is shown in the picker.
#[derive(Debug, Clone, Copy, PartialEq, Eq, Structural)]
pub enum ModelVisibility {
    List,
    Hide,
    Unlisted,
}

/// The shell tool that a model is given.
#[derive(Debug, Clone, Copy, PartialEq, Eq, Structural)]
pub enum ConfigShellToolType {
    Default,
    Local,
    UnifiedExec,
    Disabled,
    ShellCommand,
}

/// The unit in which the output of tools is cut.
#[derive(Debug, Clone, Copy, PartialEq, Eq, Structural)]
pub enum TruncationMode {
    Bytes,
    Tokens,
}

/// How the output of tools is cut for a model.
#[derive(Debug, Clone, Copy, PartialEq, Eq, Structural)]
pub struct TruncationPolicyConfig {
    pub mode: TruncationMode,
    pub limit: i64,
}

impl TruncationPolicyConfig {
    /// Cut after `limit` bytes.
    pub fn bytes(limit: i64) -> (policy: Self)
        ensures
            policy == (TruncationPolicyConfig { mode: TruncationMode::Bytes, limit }),
    {
        TruncationPolicyConfig { mode: TruncationMode::Bytes, limit }
    }
}

/// What is known of a model.
#[derive(Debug, PartialEq, Eq)]
pub struct ModelInfo {
    pub slug: String,
    pub display_name: String,
    pub description: Option<String>,
    pub default_reasoning_level: Option<ReasoningEffort>,
    pub shell_type: ConfigShellToolType,
    pub visibility: ModelVisibility,
    pub supported_in_api: bool,
    pub priority: i32,
    pub base_instructions: String,
    pub supports_reasoning_summaries: bool,
    pub support_verbosity: bool,
    pub truncation_policy: TruncationPolicyConfig,
    pub supports_parallel_tool_calls: bool,
    pub context_window: Option<i64>,
    pub auto_compact_token_limit: Option<i64>,
    pub effective_context_window_percent: i64,
}

impl Clone for ModelInfo {
    fn clone(&self) -> (copy: Self)
        ensures
            copy == *self,
    {
        ModelInfo {
            slug: self.slug.clone(),
            display_name: self.display_name.clone(),
            description: match &self.description {
                Some(d) => Some(d.clone()),
                None => None,
            },
            default_reasoning_level: self.default_reasoning_level,
            shell_type: self.shell_type,
            visibility: self.visibility,
            supported_in_api: self.supported_in_api,
            priority: self.priority,
            base_instructions: self.base_instructions.clone(),
            supports_reasoning_summaries: self.supports_reasoning_summaries,
            support_verbosity: self.support_verbosity,
            truncation_policy: self.truncation_policy,
            supports_parallel_tool_calls: self.supports_parallel_tool_calls,
            context_window: self.context_window,
            auto_compact_token_limit: self.auto_compact_token_limit,
            effective_context_window_percent: self.effective_context_window_percent,
        }
    }
}

/// A model as the picker shows it.
#[derive(Debug, PartialEq, Eq)]
pub struct ModelPreset {
    pub id: String,
    pub model: String,
    pub display_name: String,
    pub description: Option<String>,
    pub default_reasoning_effort: Option<ReasoningEffort>,
    pub is_default: bool,
    pub show_in_picker: bool,
    pub supported_in_api: bool,
}

impl Clone for ModelPreset {
    fn clone(&self) -> (copy: Self)
        ensures
            copy == *self,
    {
        ModelPreset {
            id: self.id.clone(),
            model: self.model.clone(),
            display_name: self.display_name.clone(),
            description: match &self.description {
                Some(d) => Some(d.clone()),
                None => None,
            },
            default_reasoning_effort: self.default_reasoning_effort,
            is_default: self.is_default,
            show_in_picker: self.show_in_picker,
            supported_in_api: self.supported_in_api,
        }
    }
}

/// The preset that stands for a model: named after the model's slug, not
/// the default, and shown in the picker where the model is listed.
pub open spec fn preset_from(info: ModelInfo) -> ModelPreset {
    ModelPreset {
        id: info.slug,
        model: info.slug,
        display_name: info.display_name,
        description: info.description,
        default_reasoning_effort: info.default_reasoning_level,
        is_default: false,
        show_in_picker: info.visibility == ModelVisibility::List,
        supported_in_api: info.supported_in_api,
    }
}

/// The presets that stand for a list of models, in its order.
pub open spec fn presets_from(infos: Seq<ModelInfo>) -> Seq<ModelPreset> {
    Seq::new(infos.len(), |i: int| preset_from(infos[i]))
}

/// Where a model of the priority `priority` goes into a list that is in
/// the order of priorities: behind every model that does not come after
/// it.
pub open spec fn insertion_point(sorted: Seq<ModelInfo>, priority: i32) -> int
    decreases sorted.len(),
{
    if sorted.len() == 0 {
        0
    } else if sorted.last().priority <= priority {
        sorted.len() as int
    } else {
        insertion_point(sorted.drop_last(), priority)
    }
}

/// A list of models in the order of their priorities, lowest number
/// first; models of one priority stay in the order in which they were.
pub open spec fn sorted_by_priority(infos: Seq<ModelInfo>) -> Seq<ModelInfo>
    decreases infos.len(),
{
    if infos.len() == 0 {
        infos
    } else {
        let before = sorted_by_priority(infos.drop_last());
        before.insert(insertion_point(before, infos.last().priority), infos.last())
    }
}

/// Whether a list of models is in the order of their priorities.
pub open spec fn in_priority_order(infos: Seq<ModelInfo>) -> bool {
    forall|i: int, j: int| 0 <= i <= j < infos.len() ==> infos[i].priority <= infos[j].priority
}

/// Whether one of the presets is for the model named `model`.
pub open spec fn has_model(presets: Seq<ModelPreset>, model: Seq<char>) -> bool {
    exists|i: int| 0 <= i < presets.len() && (#[trigger] presets[i]).model@ == model
}

/// A preset that is not the default.
pub open spec fn not_default(preset: ModelPreset) -> ModelPreset {
    ModelPreset { is_default: false, ..preset }
}

/// A preset that is the default.
pub open spec fn as_default(preset: ModelPreset) -> ModelPreset {
    ModelPreset { is_default: true, ..preset }
}

/// Those of the presets at hand for whose model the remote list has no
/// preset, in their order, none of them the default.
pub open spec fn kept_existing(remote: Seq<ModelPreset>, existing: Seq<ModelPreset>) -> Seq<
    ModelPreset,
>
    decreases existing.len(),
{
    if existing.len() == 0 {
        Seq::<ModelPreset>::empty()
    } else {
        let before = kept_existing(remote, existing.drop_last());
        if has_model(remote, existing.last().model@) {
            before
        } else {
            before.push(not_default(existing.last()))
        }
    }
}

/// The remote presets merged with those at hand: the remote ones first,
/// then those at hand that the remote list does not replace. Without
/// remote presets those at hand stay as they are.
pub open spec fn merged(remote: Seq<ModelPreset>, existing: Seq<ModelPreset>) -> Seq<ModelPreset> {
    if remote.len() == 0 {
        existing
    } else {
        remote + kept_existing(remote, existing)
    }
}

/// The presets that a user may see: all of them for a user signed in with
/// ChatGPT, and otherwise those that the API supports.
pub open spec fn filtered_by_auth(models: Seq<ModelPreset>, chatgpt_mode: bool) -> Seq<ModelPreset>
    decreases models.len(),
{
    if models.len() == 0 {
        Seq::<ModelPreset>::empty()
    } else {
        let before = filtered_by_auth(models.drop_last(), chatgpt_mode);
        if chatgpt_mode || models.last().supported_in_api {
            before.push(models.last())
        } else {
            before
        }
    }
}

/// The place of the first preset that is shown in the picker; the length
/// of the list where none is.
pub open spec fn first_in_picker(presets: Seq<ModelPreset>) -> int
    decreases presets.len(),
{
    if presets.len() == 0 {
        0
    } else if presets[0].show_in_picker {
        0
    } else {
        1 + first_in_picker(presets.drop_first())
    }
}

/// The place of the preset that becomes the default: the first one that
/// is shown in the picker, and the first of all where none is shown.
pub open spec fn default_place(presets: Seq<ModelPreset>) -> int {
    if first_in_picker(presets) < presets.len() {
        first_in_picker(presets)
    } else {
        0
    }
}

/// The presets with exactly one default among them, unless there is none
/// at all: the one at [`default_place`].
pub open spec fn with_default(presets: Seq<ModelPreset>) -> Seq<ModelPreset> {
    Seq::new(
        presets.len(),
        |i: int|
            if i == default_place(presets) {
                as_default(presets[i])
            } else {
                not_default(presets[i])
            },
    )
}

/// The list for the picker, made from the remote models, the presets at
/// hand and the way the user is signed in: the remote models in the order
/// of their priorities, turned into presets, merged with those at hand,
/// without those that the user may not see, and with one default.
pub open spec fn available_models(
    remote_models: Seq<ModelInfo>,
    local_models: Seq<ModelPreset>,
    chatgpt_mode: bool,
) -> Seq<ModelPreset> {
    with_default(
        filtered_by_auth(
            merged(presets_from(sorted_by_priority(remote_models)), local_models),
            chatgpt_mode,
        ),
    )
}

impl From<ModelInfo> for ModelPreset {
    /// The preset that stands for a model.
    fn from(info: ModelInfo) -> (preset: Self) {
        let show_in_picker = match info.visibility {
            ModelVisibility::List => true,
            _ => false,
        };
        ModelPreset {
            id: info.slug.clone(),
            model: info.slug,
            display_name: info.display_name,
            description: info.description,
            default_reasoning_effort: info.default_reasoning_level,
            is_default: false,
            show_in_picker,
            supported_in_api: info.supported_in_api,
        }
    }
}

impl vstd::std_specs::convert::FromSpecImpl<ModelInfo> for ModelPreset {
    open spec fn obeys_from_spec() -> bool {
        true
    }

    open spec fn from_spec(info: ModelInfo) -> Self {
        preset_from(info)
    }
}

impl ModelPreset {
    /// Whether one of the presets is for the model named `model`.
    pub fn contains_model(presets: &Vec<ModelPreset>, model: &str) -> (found: bool)
        ensures
            found == has_model(presets@, model@),
    {
        let mut i: usize = 0;
        while i < presets.len()
            invariant
                0 <= i <= presets@.len(),
                forall|k: int| 0 <= k < i ==> (#[trigger] presets@[k]).model@ != model@,
            decreases presets@.len() - i,
        {
            if str_eq(presets[i].model.as_str(), model) {
                return true;
            }
            i = i + 1;
        }
        false
    }

    /// Merges the remote presets with those at hand. The remote ones come
    /// first; a preset at hand stays, no longer the default, unless the
    /// remote list has one for the same model. Without remote presets
    /// those at hand come back as they are.
    pub fn merge(remote_presets: Vec<ModelPreset>, existing_presets: Vec<ModelPreset>) -> (all:
        Vec<ModelPreset>)
        ensures
            all@ == merged(remote_presets@, existing_presets@),
    {
        if remote_presets.len() == 0 {
            return existing_presets;
        }
        let ghost remote = remote_presets@;
        let ghost existing = existing_presets@;
        let mut kept: Vec<ModelPreset> = Vec::new();
        let mut rest = existing_presets;
        let ghost mut done: int = 0;
        while rest.len() > 0
            invariant
                remote_presets@ == remote,
                0 <= done <= existing.len(),
                rest@ == existing.subrange(done, existing.len() as int),
                kept@ == kept_existing(remote, existing.take(done)),
            decreases rest@.len(),
        {
            let preset = rest.remove(0);
            proof {
                assert(preset == existing[done]);
                let upto = existing.take(done + 1);
                assert(upto.drop_last() =~= existing.take(done));
                assert(upto.last() == preset);
            }
            if !Self::contains_model(&remote_presets, preset.model.as_str()) {
                let mut preset = preset;
                preset.is_default = false;
                kept.push(preset);
            }
            proof {
                done = done + 1;
                assert(rest@ =~= existing.subrange(done, existing.len() as int));
            }
        }
        proof {
            assert(existing.take(existing.len() as int) =~= existing);
        }
        let mut all = remote_presets;
        all.append(&mut kept);
        all
    }

    /// Leaves out the presets that the user may not see: with ChatGPT all
    /// are seen, and otherwise those that the API supports.
    pub fn filter_by_auth(models: Vec<ModelPreset>, chatgpt_mode: bool) -> (seen: Vec<ModelPreset>)
        ensures
            seen@ == filtered_by_auth(models@, chatgpt_mode),
    {
        let mut seen: Vec<ModelPreset> = Vec::new();
        let mut rest = models;
        let ghost mut done: int = 0;
        while rest.len() > 0
            invariant
                0 <= done <= models@.len(),
                rest@ == models@.subrange(done, models@.len() as int),
                seen@ == filtered_by_auth(models@.take(done), chatgpt_mode),
            decreases rest@.len(),
        {
            let preset = rest.remove(0);
            proof {
                assert(preset == models@[done]);
                let upto = models@.take(done + 1);
                assert(upto.drop_last() =~= models@.take(done));
                assert(upto.last() == preset);
            }
            if chatgpt_mode || preset.supported_in_api {
                seen.push(preset);
            }
            proof {
                done = done + 1;
                assert(rest@ =~= models@.subrange(done, models@.len() as int));
            }
        }
        proof {
            assert(models@.take(models@.len() as int) =~= models@);
        }
        seen
    }
}

/// Puts models in the order of their priorities, lowest number first.
/// Models of one priority stay in the order in which they came.
pub fn sort_by_priority(models: Vec<ModelInfo>) -> (sorted: Vec<ModelInfo>)
    ensures
        sorted@ == sorted_by_priority(models@),
{
    let mut sorted: Vec<ModelInfo> = Vec::new();
    let mut rest = models;
    let ghost mut done: int = 0;
    while rest.len() > 0
        invariant
            0 <= done <= models@.len(),
            rest@ == models@.subrange(done, models@.len() as int),
            sorted@ == sorted_by_priority(models@.take(done)),
        decreases rest@.len(),
    {
        let model = rest.remove(0);
        proof {
            assert(model == models@[done]);
            let upto = models@.take(done + 1);
            assert(upto.drop_last() =~= models@.take(done));
            assert(upto.last() == model);
        }
        let mut place: usize = sorted.len();
        assert(sorted@.take(place as int) =~= sorted@);
        while place > 0 && sorted[place - 1].priority > model.priority
            invariant
                0 <= place <= sorted@.len(),
                insertion_point(sorted@, model.priority) == insertion_point(
                    sorted@.take(place as int),
                    model.priority,
                ),
            decreases place,
        {
            proof {
                let head = sorted@.take(place as int);
                assert(head.drop_last() =~= sorted@.take(place as int - 1));
            }
            place = place - 1;
        }
        proof {
            let head = sorted@.take(place as int);
            if place > 0 {
                assert(head.last() == sorted@[place as int - 1]);
            }
            assert(insertion_point(head, model.priority) == place);
            assert(sorted@.take(sorted@.len() as int) =~= sorted@);
        }
        sorted.insert(place, model);
        proof {
            done = done + 1;
            assert(rest@ =~= models@.subrange(done, models@.len() as int));
        }
    }
    proof {
        assert(models@.take(models@.len() as int) =~= models@);
    }
    sorted
}

/// Makes one preset the default: the first that is shown in the picker,
/// and the first of all where none is shown. All others are not the
/// default.
pub fn mark_default(presets: Vec<ModelPreset>) -> (marked: Vec<ModelPreset>)
    ensures
        marked@ == with_default(presets@),
{
    let mut place: usize = 0;
    assert(presets@.subrange(0, presets@.len() as int) =~= presets@);
    while place < presets.len() && !presets[place].show_in_picker
        invariant
            0 <= place <= presets@.len(),
            first_in_picker(presets@) == place + first_in_picker(
                presets@.subrange(place as int, presets@.len() as int),
            ),
        decreases presets@.len() - place,
    {
        proof {
            let tail = presets@.subrange(place as int, presets@.len() as int);
            assert(tail.drop_first() =~= presets@.subrange(
                place as int + 1,
                presets@.len() as int,
            ));
        }
        place = place + 1;
    }
    proof {
        assert(presets@.subrange(0, presets@.len() as int) =~= presets@);
        let tail = presets@.subrange(place as int, presets@.len() as int);
        if place < presets@.len() {
            assert(tail[0] == presets@[place as int]);
        }
        assert(first_in_picker(presets@) == place);
    }
    let chosen: usize = if place < presets.len() {
        place
    } else {
        0
    };
    let mut marked: Vec<ModelPreset> = Vec::new();
    let total: usize = presets.len();
    let mut rest = presets;
    let mut i: usize = 0;
    while rest.len() > 0
        invariant
            0 <= i <= presets@.len(),
            presets@.len() == total,
            chosen == default_place(presets@),
            rest@ == presets@.subrange(i as int, presets@.len() as int),
            i + rest@.len() == presets@.len(),
            marked@.len() == i,
            forall|k: int| 0 <= k < i ==> #[trigger] marked@[k] == with_default(presets@)[k],
        decreases rest@.len(),
    {
        let mut preset = rest.remove(0);
        assert(preset == presets@[i as int]);
        preset.is_default = i == chosen;
        marked.push(preset);
        i = i + 1;
        assert(rest@ =~= presets@.subrange(i as int, presets@.len() as int));
    }
    assert(marked@ =~= with_default(presets@));
    marked
}

/// Builds the list for the picker; see [`available_models`].
pub fn build_available_models(
    remote_models: Vec<ModelInfo>,
    local_models: Vec<ModelPreset>,
    chatgpt_mode: bool,
) -> (available: Vec<ModelPreset>)
    ensures
        available@ == available_models(remote_models@, local_models@, chatgpt_mode),
{
    let sorted = sort_by_priority(remote_models);
    let mut remote_presets: Vec<ModelPreset> = Vec::new();
    let mut rest = sorted;
    let ghost infos = rest@;
    while rest.len() > 0
        invariant
            remote_presets@.len() + rest@.len() == infos.len(),
            rest@ == infos.subrange(remote_presets@.len() as int, infos.len() as int),
            forall|k: int|
                0 <= k < remote_presets@.len() ==> #[trigger] remote_presets@[k] == preset_from(
                    infos[k],
                ),
        decreases rest@.len(),
    {
        let info = rest.remove(0);
        assert(info == infos[remote_presets@.len() as int]);
        remote_presets.push(ModelPreset::from(info));
        assert(rest@ =~= infos.subrange(remote_presets@.len() as int, infos.len() as int));
    }
    assert(remote_presets@ =~= presets_from(infos));
    let merged_presets = ModelPreset::merge(remote_presets, local_models);
    let seen = ModelPreset::filter_by_auth(merged_presets, chatgpt_mode);
    mark_default(seen)
}

/// The context window of a local model for which none is configured.
pub const DEFAULT_OSS_CONTEXT_WINDOW: i64 = 8192;

/// The three numbers of the version of this client.
pub const CLIENT_VERSION_MAJOR: u64 = 0;

pub const CLIENT_VERSION_MINOR: u64 = 1;

pub const CLIENT_VERSION_PATCH: u64 = 0;

/// Why a request of the models layer failed.
#[derive(Debug, Clone, PartialEq, Eq)]
pub enum CodexErr {
    /// The request could not be made or was refused; the text says why.
    InvalidRequest(String),
    /// No answer came in time.
    Timeout,
}

/// A service that offers models.
#[derive(Debug, PartialEq, Eq)]
pub struct ModelProviderInfo {
    pub name: String,
    pub base_url: Option<String>,
}

/// What is configured for one model.
#[derive(Debug, Clone, Copy, PartialEq, Eq, Structural)]
pub struct ModelSettings {
    pub context_window: Option<i64>,
    pub auto_compact_token_limit: Option<i64>,
}

/// The part of the configuration that the models layer reads.
#[derive(Debug, PartialEq, Eq)]
pub struct Config {
    /// Whether models may come from the network.
    pub remote_models_enabled: bool,
    /// The providers by their id. Of two entries with one id the first
    /// counts.
    pub model_providers: Vec<(String, ModelProviderInfo)>,
    /// The settings of single models by their id. Of two entries with one
    /// id the first counts.
    pub model_settings: Vec<(String, ModelSettings)>,
    /// The context window for models that have no setting of their own.
    pub model_context_window: Option<i64>,
    /// The limit at which the conversation is compacted, for models that
    /// have no setting of their own.
    pub model_auto_compact_token_limit: Option<i64>,
    /// The instructions that every model is given.
    pub base_instructions: String,
}

/// The models of a provider as they were read from its answer: the
/// entries of the list named `data`, if the answer has one, each with its
/// `id` where that is a text.
#[derive(Debug, PartialEq, Eq)]
pub struct OssListing {
    pub data: Option<Vec<Option<String>>>,
}

/// How the request for the models of a provider ended.
#[derive(Debug, PartialEq, Eq)]
pub enum OssFetch {
    /// No answer came in time.
    TimedOut,
    /// The request could not be made; `detail` says why.
    RequestFailed { detail: String },
    /// The provider answered with a status that is no success.
    ErrorStatus { status: String },
    /// The answer could not be read; `detail` says why.
    BodyFailed { detail: String },
    /// The answer.
    Body(OssListing),
}

/// The models as they were cached.
#[derive(Debug, PartialEq, Eq)]
pub struct ModelsCache {
    pub models: Vec<ModelInfo>,
    pub etag: Option<String>,
}

/// What a refresh has to do.
#[derive(Debug, Clone, Copy, PartialEq, Eq, Structural)]
pub enum RefreshPlan {
    /// Nothing.
    Nothing,
    /// Load the cache if it is fresh.
    LoadCache,
    /// Load the cache if it is fresh, and fetch from the network
    /// otherwise.
    LoadCacheThenFetch,
    /// Fetch from the network.
    Fetch,
    /// Ask the local provider for its models.
    FetchOss,
}

/// What is to be done when the service names the version of its list.
#[derive(Debug, Clone, Copy, PartialEq, Eq, Structural)]
pub enum EtagAction {
    /// The list at hand is the current one: keep the cache for longer.
    RenewCacheTtl,
    /// The list has changed: fetch it.
    RefreshOnline,
}

/// The place of the first entry with the key `key`; the length of the
/// list where there is none.
pub open spec fn key_place<T>(entries: Seq<(String, T)>, key: Seq<char>) -> int
    decreases entries.len(),
{
    if entries.len() == 0 {
        0
    } else if entries[0].0@ == key {
        0
    } else {
        1 + key_place(entries.drop_first(), key)
    }
}

/// The place of the first model with the slug `slug`; the length of the
/// list where there is none.
pub open spec fn slug_place(models: Seq<ModelInfo>, slug: Seq<char>) -> int
    decreases models.len(),
{
    if models.len() == 0 {
        0
    } else if models[0].slug@ == slug {
        0
    } else {
        1 + slug_place(models.drop_first(), slug)
    }
}

/// A list of models with one more model taken in: it takes the place of
/// the first model with its slug, and goes to the end where there is none.
pub open spec fn upserted(models: Seq<ModelInfo>, model: ModelInfo) -> Seq<ModelInfo> {
    let place = slug_place(models, model.slug@);
    if 0 <= place < models.len() {
        models.update(place, model)
    } else {
        models.push(model)
    }
}

/// A list of models with a list of further models taken in, one after
/// the other.
pub open spec fn applied(models: Seq<ModelInfo>, incoming: Seq<ModelInfo>) -> Seq<ModelInfo>
    decreases incoming.len(),
{
    if incoming.len() == 0 {
        models
    } else {
        upserted(applied(models, incoming.drop_last()), incoming.last())
    }
}

/// Nine tenths of a number, rounded towards zero.
pub open spec fn nine_tenths(n: int) -> int {
    if n >= 0 {
        n * 90 / 100
    } else {
        -((-n) * 90 / 100)
    }
}

/// The context window of a local model: its own setting, else the one
/// for all models, else [`DEFAULT_OSS_CONTEXT_WINDOW`].
pub open spec fn oss_context_window(settings: Option<ModelSettings>, config: Config) -> i64 {
    match settings {
        Some(ModelSettings { context_window: Some(w), .. }) => w,
        _ => match config.model_context_window {
            Some(w) => w,
            None => DEFAULT_OSS_CONTEXT_WINDOW,
        },
    }
}

/// The limit at which the conversation with a local model is compacted:
/// its own setting, else the one for all models, else nine tenths of its
/// context window.
pub open spec fn oss_auto_compact_limit(settings: Option<ModelSettings>, config: Config) -> int {
    match settings {
        Some(ModelSettings { auto_compact_token_limit: Some(l), .. }) => l as int,
        _ => match config.model_auto_compact_token_limit {
            Some(l) => l as int,
            None => nine_tenths(oss_context_window(settings, config) as int),
        },
    }
}

/// The settings of the model `model_id`, if it has any.
pub open spec fn settings_of(config: Config, model_id: Seq<char>) -> Option<ModelSettings> {
    let place = key_place(config.model_settings@, model_id);
    if 0 <= place < config.model_settings@.len() {
        Some(config.model_settings@[place].1)
    } else {
        None
    }
}

/// Whether `info` is what is known of the local model `model_id` of the
/// provider `provider_id`: shown under the last part of its id, described
/// as a local model of that provider, with plain abilities, and with the
/// context window and compaction limit that the configuration gives.
pub open spec fn is_oss_model_info(
    info: ModelInfo,
    model_id: Seq<char>,
    provider_id: Seq<char>,
    config: Config,
) -> bool {
    let settings = settings_of(config, model_id);
    &&& info.slug@ == model_id
    &&& info.display_name@ == after_last(model_id, '/')
    &&& info.description matches Some(d) && d@ == "Local model via "@ + provider_id
    &&& info.default_reasoning_level is None
    &&& info.shell_type == ConfigShellToolType::Default
    &&& info.visibility == ModelVisibility::List
    &&& info.supported_in_api
    &&& info.priority == 0
    &&& info.base_instructions@ == config.base_instructions@
    &&& !info.supports_reasoning_summaries
    &&& !info.support_verbosity
    &&& info.truncation_policy == (TruncationPolicyConfig {
        mode: TruncationMode::Bytes,
        limit: 10000,
    })
    &&& !info.supports_parallel_tool_calls
    &&& info.context_window == Some(oss_context_window(settings, config))
    &&& info.auto_compact_token_limit matches Some(l) && l == oss_auto_compact_limit(
        settings,
        config,
    )
    &&& info.effective_context_window_percent == 95
}

/// The ids of the entries of a listing that have one, in their order.
pub open spec fn listed_ids(entries: Seq<Option<String>>) -> Seq<Seq<char>>
    decreases entries.len(),
{
    if entries.len() == 0 {
        Seq::<Seq<char>>::empty()
    } else {
        let before = listed_ids(entries.drop_last());
        match entries.last() {
            Some(id) => before.push(id@),
            None => before,
        }
    }
}

/// The place of the first preset that is marked as default; the length
/// of the list where none is.
pub open spec fn first_default(presets: Seq<ModelPreset>) -> int
    decreases presets.len(),
{
    if presets.len() == 0 {
        0
    } else if presets[0].is_default {
        0
    } else {
        1 + first_default(presets.drop_first())
    }
}

/// The model that is chosen where the user names none: the first one
/// marked as default, else the first of all, else none, which is written
/// as the empty text.
pub open spec fn default_model_name(available: Seq<ModelPreset>) -> Seq<char> {
    if available.len() == 0 {
        Seq::<char>::empty()
    } else if first_default(available) < available.len() {
        available[first_default(available)].model@
    } else {
        available[0].model@
    }
}

/// Nine tenths of `n`, rounded towards zero.
pub fn nine_tenths_of(n: i64) -> (r: i64)
    ensures
        r == nine_tenths(n as int),
{
    if n >= 0 {
        let wide: u128 = n as u128;
        (wide * 90 / 100) as i64
    } else {
        let wide: u128 = (-(n as i128)) as u128;
        let part: i128 = (wide * 90 / 100) as i128;
        (-part) as i64
    }
}

/// The place of the first entry with the key `key`, if there is one.
pub fn find_key<T>(entries: &Vec<(String, T)>, key: &str) -> (place: Option<usize>)
    ensures
        match place {
            Some(i) => i == key_place(entries@, key@) && i < entries@.len(),
            None => key_place(entries@, key@) == entries@.len(),
        },
{
    let mut i: usize = 0;
    assert(entries@.subrange(0, entries@.len() as int) =~= entries@);
    while i < entries.len()
        invariant
            0 <= i <= entries@.len(),
            key_place(entries@, key@) == i + key_place(
                entries@.subrange(i as int, entries@.len() as int),
                key@,
            ),
        decreases entries@.len() - i,
    {
        let ghost tail = entries@.subrange(i as int, entries@.len() as int);
        assert(tail[0] == entries@[i as int]);
        if str_eq(entries[i].0.as_str(), key) {
            return Some(i);
        }
        assert(tail.drop_first() =~= entries@.subrange(i as int + 1, entries@.len() as int));
        i = i + 1;
    }
    None
}

/// The place of the first model with the slug `slug`, if there is one.
pub fn find_slug(models: &Vec<ModelInfo>, slug: &str) -> (place: Option<usize>)
    ensures
        match place {
            Some(i) => i == slug_place(models@, slug@) && i < models@.len(),
            None => slug_place(models@, slug@) == models@.len(),
        },
{
    let mut i: usize = 0;
    assert(models@.subrange(0, models@.len() as int) =~= models@);
    while i < models.len()
        invariant
            0 <= i <= models@.len(),
            slug_place(models@, slug@) == i + slug_place(
                models@.subrange(i as int, models@.len() as int),
                slug@,
            ),
        decreases models@.len() - i,
    {
        let ghost tail = models@.subrange(i as int, models@.len() as int);
        assert(tail[0] == models@[i as int]);
        if str_eq(models[i].slug.as_str(), slug) {
            return Some(i);
        }
        assert(tail.drop_first() =~= models@.subrange(i as int + 1, models@.len() as int));
        i = i + 1;
    }
    None
}

/// Takes further models into a list, one after the other: each takes the
/// place of the first model with its slug, or goes to the end.
pub fn apply_models(models: Vec<ModelInfo>, incoming: Vec<ModelInfo>) -> (all: Vec<ModelInfo>)
    ensures
        all@ == applied(models@, incoming@),
{
    let mut all = models;
    let mut rest = incoming;
    let ghost mut done: int = 0;
    assert(incoming@.take(0) =~= Seq::<ModelInfo>::empty());
    while rest.len() > 0
        invariant
            0 <= done <= incoming@.len(),
            rest@ == incoming@.subrange(done, incoming@.len() as int),
            all@ == applied(models@, incoming@.take(done)),
        decreases rest@.len(),
    {
        let model = rest.remove(0);
        proof {
            assert(model == incoming@[done]);
            let upto = incoming@.take(done + 1);
            assert(upto.drop_last() =~= incoming@.take(done));
            assert(upto.last() == model);
        }
        match find_slug(&all, model.slug.as_str()) {
            Some(place) => {
                all.set(place, model);
            },
            None => {
                all.push(model);
            },
        }
        proof {
            done = done + 1;
            assert(rest@ =~= incoming@.subrange(done, incoming@.len() as int));
        }
    }
    proof {
        assert(incoming@.take(incoming@.len() as int) =~= incoming@);
    }
    all
}

/// The version of this client without what follows its three numbers,
/// as in "1.2.3" for "1.2.3-alpha.4".
pub fn format_client_version_to_whole() -> (version: String)
    ensures
        version@ == decimal_digits(CLIENT_VERSION_MAJOR as nat) + "."@ + decimal_digits(
            CLIENT_VERSION_MINOR as nat,
        ) + "."@ + decimal_digits(CLIENT_VERSION_PATCH as nat),
{
    let mut version = String::new();
    push_decimal(&mut version, CLIENT_VERSION_MAJOR);
    version.append(".");
    push_decimal(&mut version, CLIENT_VERSION_MINOR);
    version.append(".");
    push_decimal(&mut version, CLIENT_VERSION_PATCH);
    proof {
        assert(version@ =~= decimal_digits(CLIENT_VERSION_MAJOR as nat) + "."@ + decimal_digits(
            CLIENT_VERSION_MINOR as nat,
        ) + "."@ + decimal_digits(CLIENT_VERSION_PATCH as nat));
    }
    version
}

/// Keeps what is known of the models: the presets at hand, the models
/// that came with the program and those that came from the network.
pub struct ModelsManager {
    local_models: Vec<ModelPreset>,
    bundled_models: Vec<ModelInfo>,
    remote_models: Vec<ModelInfo>,
    auth_mode: Option<AuthMode>,
    etag: Option<String>,
    provider: ModelProviderInfo,
    model_provider_id: String,
}

impl ModelsManager {
    /// The presets at hand.
    pub closed spec fn local_models(&self) -> Seq<ModelPreset> {
        self.local_models@
    }

    /// The models that came with the program.
    pub closed spec fn bundled_models(&self) -> Seq<ModelInfo> {
        self.bundled_models@
    }

    /// The models that are taken for the remote ones at present.
    pub closed spec fn remote_models(&self) -> Seq<ModelInfo> {
        self.remote_models@
    }

    /// How the user is signed in.
    pub closed spec fn auth_mode(&self) -> Option<AuthMode> {
        self.auth_mode
    }

    /// The version of the remote list that was seen last.
    pub closed spec fn etag(&self) -> Option<String> {
        self.etag
    }

    /// The provider that remote models are fetched from.
    pub closed spec fn provider(&self) -> ModelProviderInfo {
        self.provider
    }

    /// The id of the provider in use.
    pub closed spec fn provider_id(&self) -> Seq<char> {
        self.model_provider_id@
    }

    /// Whether the provider in use runs models on this machine.
    pub open spec fn uses_oss_provider(&self) -> bool {
        ||| self.provider_id() == "lmstudio"@
        ||| self.provider_id() == "ollama"@
        ||| self.provider_id() == "ollama-chat"@
    }

    /// Whether the user is signed in with ChatGPT.
    pub open spec fn chatgpt_mode(&self) -> bool {
        self.auth_mode() == Some(AuthMode::Chatgpt)
    }

    /// The remote models as far as the configuration lets them count.
    pub open spec fn counted_remote_models(&self, config: Config) -> Seq<ModelInfo> {
        if config.remote_models_enabled {
            self.remote_models()
        } else {
            Seq::<ModelInfo>::empty()
        }
    }

    /// The list for the picker under the configuration `config`.
    pub open spec fn listed_models(&self, config: Config) -> Seq<ModelPreset> {
        available_models(
            self.counted_remote_models(config),
            self.local_models(),
            self.chatgpt_mode(),
        )
    }

    /// `post` is `pre` but for the remote models and the version of their
    /// list.
    pub open spec fn same_but_remote(pre: Self, post: Self) -> bool {
        &&& post.local_models() == pre.local_models()
        &&& post.bundled_models() == pre.bundled_models()
        &&& post.auth_mode() == pre.auth_mode()
        &&& post.provider() == pre.provider()
        &&& post.provider_id() == pre.provider_id()
    }

    /// What a refresh has to do under the configuration `config` and
    /// with the strategy `strategy`. A provider on this machine is asked
    /// unless the strategy is to stay offline. The network is left alone
    /// where remote models are switched off and where the user is signed
    /// in with an API key. Otherwise the strategy decides.
    pub open spec fn planned_refresh(&self, config: Config, strategy: RefreshStrategy) -> RefreshPlan {
        if self.uses_oss_provider() {
            if strategy == RefreshStrategy::Offline {
                RefreshPlan::Nothing
            } else {
                RefreshPlan::FetchOss
            }
        } else if !config.remote_models_enabled || self.auth_mode() == Some(AuthMode::ApiKey) {
            RefreshPlan::Nothing
        } else {
            match strategy {
                RefreshStrategy::Offline => RefreshPlan::LoadCache,
                RefreshStrategy::OnlineIfUncached => RefreshPlan::LoadCacheThenFetch,
                RefreshStrategy::Online => RefreshPlan::Fetch,
            }
        }
    }

    /// A manager with the presets at hand and the models that came with
    /// the program, which count as the remote ones until others come. The
    /// provider of remote models is the default one.
    pub fn new(
        local_models: Vec<ModelPreset>,
        bundled_models: Vec<ModelInfo>,
        auth_mode: Option<AuthMode>,
        model_provider_id: String,
    ) -> (manager: Self)
        ensures
            manager.local_models() == local_models@,
            manager.bundled_models() == bundled_models@,
            manager.remote_models() == bundled_models@,
            manager.auth_mode() == auth_mode,
            manager.etag() is None,
            manager.provider_id() == model_provider_id@,
            manager.provider().name@ == "OpenAI"@,
            manager.provider().base_url is None,
    {
        let remote_models = bundled_models.clone();
        assert(remote_models@ =~= bundled_models@);
        ModelsManager {
            local_models,
            bundled_models,
            remote_models,
            auth_mode,
            etag: None,
            provider: ModelProviderInfo { name: String::from_str("OpenAI"), base_url: None },
            model_provider_id,
        }
    }

    /// A manager that fetches remote models from `provider`, under the
    /// provider id "openai".
    pub fn with_provider(
        local_models: Vec<ModelPreset>,
        bundled_models: Vec<ModelInfo>,
        auth_mode: Option<AuthMode>,
        provider: ModelProviderInfo,
    ) -> (manager: Self)
        ensures
            manager.local_models() == local_models@,
            manager.bundled_models() == bundled_models@,
            manager.remote_models() == bundled_models@,
            manager.auth_mode() == auth_mode,
            manager.etag() is None,
            manager.provider_id() == "openai"@,
            manager.provider() == provider,
    {
        let remote_models = bundled_models.clone();
        assert(remote_models@ =~= bundled_models@);
        ModelsManager {
            local_models,
            bundled_models,
            remote_models,
            auth_mode,
            etag: None,
            provider,
            model_provider_id: String::from_str("openai"),
        }
    }

    /// Whether the provider in use runs models on this machine.
    pub fn is_oss_provider(&self) -> (oss: bool)
        ensures
            oss == self.uses_oss_provider(),
    {
        let id = self.model_provider_id.as_str();
        str_eq(id, "lmstudio") || str_eq(id, "ollama") || str_eq(id, "ollama-chat")
    }

    /// Says what a refresh has to do; see
    /// [`ModelsManager::planned_refresh`].
    pub fn refresh_available_models(&self, config: &Config, refresh_strategy: RefreshStrategy) -> (plan:
        RefreshPlan)
        ensures
            plan == self.planned_refresh(*config, refresh_strategy),
    {
        if self.is_oss_provider() {
            return self.refresh_oss_models(refresh_strategy);
        }
        let api_key = match self.auth_mode {
            Some(AuthMode::ApiKey) => true,
            _ => false,
        };
        if !config.remote_models_enabled || api_key {
            return RefreshPlan::Nothing;
        }
        match refresh_strategy {
            RefreshStrategy::Offline => RefreshPlan::LoadCache,
            RefreshStrategy::OnlineIfUncached => RefreshPlan::LoadCacheThenFetch,
            RefreshStrategy::Online => RefreshPlan::Fetch,
        }
    }

    /// Says what a refresh has to do for a provider on this machine:
    /// nothing where the strategy is to stay offline, and otherwise to ask
    /// the provider.
    pub fn refresh_oss_models(&self, refresh_strategy: RefreshStrategy) -> (plan: RefreshPlan)
        ensures
            plan == (if refresh_strategy == RefreshStrategy::Offline {
                RefreshPlan::Nothing
            } else {
                RefreshPlan::FetchOss
            }),
    {
        match refresh_strategy {
            RefreshStrategy::Offline => RefreshPlan::Nothing,
            RefreshStrategy::OnlineIfUncached | RefreshStrategy::Online => RefreshPlan::FetchOss,
        }
    }

    /// Takes in what asking the local provider came to: its models take
    /// the place of the remote ones; a failure leaves everything as it was.
    pub fn apply_oss_models(&mut self, fetched: Result<Vec<ModelInfo>, CodexErr>)
        ensures
            Self::same_but_remote(*old(self), *final(self)),
            final(self).etag() == old(self).etag(),
            final(self).remote_models() == (match fetched {
                Ok(models) => models@,
                Err(_) => old(self).remote_models(),
            }),
    {
        match fetched {
            Ok(models) => {
                self.remote_models = models;
            },
            Err(_failed) => {},
        }
    }

    /// Says what is to be done when the service names the version `etag`
    /// of its list: where it is the version seen last, the cache is kept
    /// for longer, and otherwise the list is fetched.
    pub fn refresh_if_new_etag(&self, etag: &str) -> (action: EtagAction)
        ensures
            action == (if self.etag() matches Some(seen) && seen@ == etag@ {
                EtagAction::RenewCacheTtl
            } else {
                EtagAction::RefreshOnline
            }),
    {
        match &self.etag {
            Some(seen) => if str_eq(seen.as_str(), etag) {
                EtagAction::RenewCacheTtl
            } else {
                EtagAction::RefreshOnline
            },
            None => EtagAction::RefreshOnline,
        }
    }

    /// The version of the remote list that was seen last.
    pub fn get_etag(&self) -> (etag: Option<String>)
        ensures
            etag == self.etag(),
    {
        match &self.etag {
            Some(seen) => Some(seen.clone()),
            None => None,
        }
    }

    /// Puts the models given in the place of the remote ones: the models
    /// that came with the program, with each of the models given taken in.
    pub fn apply_remote_models(&mut self, models: Vec<ModelInfo>)
        ensures
            Self::same_but_remote(*old(self), *final(self)),
            final(self).etag() == old(self).etag(),
            final(self).remote_models() == applied(old(self).bundled_models(), models@),
    {
        let existing = self.bundled_models.clone();
        assert(existing@ =~= self.bundled_models@);
        self.remote_models = apply_models(existing, models);
    }

    /// Takes in the cache, if one was loaded: its models are applied and
    /// its version is noted. Says whether there was one.
    pub fn try_load_cache(&mut self, cache: Option<ModelsCache>) -> (loaded: bool)
        ensures
            Self::same_but_remote(*old(self), *final(self)),
            match cache {
                Some(c) => {
                    &&& loaded
                    &&& final(self).etag() == c.etag
                    &&& final(self).remote_models() == applied(
                        old(self).bundled_models(),
                        c.models@,
                    )
                },
                None => {
                    &&& !loaded
                    &&& final(self).etag() == old(self).etag()
                    &&& final(self).remote_models() == old(self).remote_models()
                },
            },
    {
        match cache {
            Some(c) => {
                let ModelsCache { models, etag } = c;
                self.etag = etag;
                self.apply_remote_models(models);
                true
            },
            None => false,
        }
    }

    /// Takes in the models that were fetched, with the version of their
    /// list.
    pub fn fetch_and_update_models(&mut self, models: Vec<ModelInfo>, etag: Option<String>)
        ensures
            Self::same_but_remote(*old(self), *final(self)),
            final(self).etag() == etag,
            final(self).remote_models() == applied(old(self).bundled_models(), models@),
    {
        self.apply_remote_models(models);
        self.etag = etag;
    }

    /// The remote models as far as the configuration lets them count.
    pub fn get_remote_models(&self, config: &Config) -> (models: Vec<ModelInfo>)
        ensures
            models@ == self.counted_remote_models(*config),
    {
        if config.remote_models_enabled {
            let models = self.remote_models.clone();
            assert(models@ =~= self.remote_models@);
            models
        } else {
            Vec::new()
        }
    }

    /// Builds the list for the picker from remote models given.
    pub fn build_available_models(&self, remote_models: Vec<ModelInfo>) -> (available: Vec<
        ModelPreset,
    >)
        ensures
            available@ == available_models(
                remote_models@,
                self.local_models(),
                self.chatgpt_mode(),
            ),
    {
        let existing_presets = self.local_models.clone();
        assert(existing_presets@ =~= self.local_models@);
        let chatgpt_mode = match self.auth_mode {
            Some(AuthMode::Chatgpt) => true,
            _ => false,
        };
        build_available_models(remote_models, existing_presets, chatgpt_mode)
    }

    /// The list for the picker: the models in the order of their
    /// priorities, without those that the user may not see, and with one
    /// default.
    pub fn list_models(&self, config: &Config) -> (available: Vec<ModelPreset>)
        ensures
            available@ == self.listed_models(*config),
    {
        let remote_models = self.get_remote_models(config);
        self.build_available_models(remote_models)
    }

    /// The list for the picker from what is known at this moment.
    pub fn try_list_models(&self, config: &Config) -> (available: Vec<ModelPreset>)
        ensures
            available@ == self.listed_models(*config),
    {
        let remote_models = self.get_remote_models(config);
        self.build_available_models(remote_models)
    }

    /// The model to use: the one that the user names, and otherwise the
    /// default of the list for the picker.
    pub fn get_default_model(&self, model: &Option<String>, config: &Config) -> (name: String)
        ensures
            name@ == (match *model {
                Some(named) => named@,
                None => default_model_name(self.listed_models(*config)),
            }),
    {
        match model {
            Some(named) => named.clone(),
            None => {
                let available = self.list_models(config);
                default_model_of(&available)
            },
        }
    }

    /// What is known of the model `model`: what the remote list says of
    /// it, as far as that list counts, and otherwise `fallback`.
    pub fn get_model_info(&self, model: &str, config: &Config, fallback: ModelInfo) -> (info:
        ModelInfo)
        ensures
            info == ({
                let remote = self.counted_remote_models(*config);
                let place = slug_place(remote, model@);
                if 0 <= place < remote.len() {
                    remote[place]
                } else {
                    fallback
                }
            }),
    {
        if config.remote_models_enabled {
            match find_slug(&self.remote_models, model) {
                Some(place) => self.remote_models[place].clone(),
                None => fallback,
            }
        } else {
            proof {
                assert(slug_place(Seq::<ModelInfo>::empty(), model@) == 0);
            }
            fallback
        }
    }

    /// The model to use without a look at remote models or the cache: the
    /// one that the user names, and otherwise, of the presets given, the
    /// first that is shown in the picker, else the first of all, else none,
    /// which is written as the empty text.
    pub fn get_model_offline(model: Option<&str>, presets: &Vec<ModelPreset>) -> (name: String)
        ensures
            name@ == (match model {
                Some(named) => named@,
                None => if presets@.len() == 0 {
                    Seq::<char>::empty()
                } else {
                    presets@[default_place(presets@)].model@
                },
            }),
    {
        match model {
            Some(named) => String::from_str(named),
            None => {
                if presets.len() == 0 {
                    return String::new();
                }
                let mut place: usize = 0;
                assert(presets@.subrange(0, presets@.len() as int) =~= presets@);
                while place < presets.len() && !presets[place].show_in_picker
                    invariant
                        0 <= place <= presets@.len(),
                        first_in_picker(presets@) == place + first_in_picker(
                            presets@.subrange(place as int, presets@.len() as int),
                        ),
                    decreases presets@.len() - place,
                {
                    proof {
                        let tail = presets@.subrange(place as int, presets@.len() as int);
                        assert(tail.drop_first() =~= presets@.subrange(
                            place as int + 1,
                            presets@.len() as int,
                        ));
                    }
                    place = place + 1;
                }
                proof {
                    let tail = presets@.subrange(place as int, presets@.len() as int);
                    if place < presets@.len() {
                        assert(tail[0] == presets@[place as int]);
                    }
                }
                if place < presets.len() {
                    presets[place].model.clone()
                } else {
                    presets[0].model.clone()
                }
            },
        }
    }

    /// The address at which the provider in use lists its models: its
    /// base address without slashes at the end, and "/models". The call
    /// fails where the configuration does not know the provider, and where
    /// it gives no base address for it.
    pub fn oss_models_url(&self, config: &Config) -> (r: Result<String, CodexErr>)
        ensures
            ({
                let place = key_place(config.model_providers@, self.provider_id());
                if place >= config.model_providers@.len() {
                    r matches Err(CodexErr::InvalidRequest(message)) && message@ == "Provider "@
                        + self.provider_id() + " not found in model_providers"@
                } else {
                    match config.model_providers@[place].1.base_url {
                        None => r matches Err(CodexErr::InvalidRequest(message)) && message@
                            == "Provider "@ + self.provider_id() + " has no base_url configured"@,
                        Some(base) => r matches Ok(url) && url@ == without_trailing(base@, '/')
                            + "/models"@,
                    }
                }
            }),
    {
        let place = match find_key(&config.model_providers, self.model_provider_id.as_str()) {
            Some(place) => place,
            None => {
                return Err(
                    CodexErr::InvalidRequest(
                        concat3(
                            "Provider ",
                            self.model_provider_id.as_str(),
                            " not found in model_providers",
                        ),
                    ),
                );
            },
        };
        match &config.model_providers[place].1.base_url {
            None => Err(
                CodexErr::InvalidRequest(
                    concat3(
                        "Provider ",
                        self.model_provider_id.as_str(),
                        " has no base_url configured",
                    ),
                ),
            ),
            Some(base) => Ok(concat2(trim_end_matches(base.as_str(), '/'), "/models")),
        }
    }

    /// What is known of a model of the provider on this machine; see
    /// [`is_oss_model_info`].
    pub fn create_oss_model_info(&self, model_id: &str, config: &Config) -> (info: ModelInfo)
        ensures
            is_oss_model_info(info, model_id@, self.provider_id(), *config),
    {
        let model_settings: Option<ModelSettings> = match find_key(&config.model_settings, model_id) {
            Some(place) => Some(config.model_settings[place].1),
            None => None,
        };
        let own_window: Option<i64> = match model_settings {
            Some(s) => s.context_window,
            None => None,
        };
        let context_window: i64 = match own_window {
            Some(w) => w,
            None => match config.model_context_window {
                Some(w) => w,
                None => DEFAULT_OSS_CONTEXT_WINDOW,
            },
        };
        let own_limit: Option<i64> = match model_settings {
            Some(s) => s.auto_compact_token_limit,
            None => None,
        };
        let auto_compact_token_limit: i64 = match own_limit {
            Some(l) => l,
            None => match config.model_auto_compact_token_limit {
                Some(l) => l,
                None => nine_tenths_of(context_window),
            },
        };
        let display_name = String::from_str(last_segment(model_id, '/'));
        ModelInfo {
            slug: String::from_str(model_id),
            display_name,
            description: Some(concat2("Local model via ", self.model_provider_id.as_str())),
            default_reasoning_level: None,
            shell_type: ConfigShellToolType::Default,
            visibility: ModelVisibility::List,
            supported_in_api: true,
            priority: 0,
            base_instructions: config.base_instructions.clone(),
            supports_reasoning_summaries: false,
            support_verbosity: false,
            truncation_policy: TruncationPolicyConfig::bytes(10000),
            supports_parallel_tool_calls: false,
            context_window: Some(context_window),
            auto_compact_token_limit: Some(auto_compact_token_limit),
            effective_context_window_percent: 95,
        }
    }

    /// The models of the provider on this machine, given how the request
    /// for them ended: for each entry of the answer that has an id, what is
    /// known of that model, in the order of the entries; or the error that
    /// names what went wrong.
    pub fn fetch_oss_models(&self, fetched: OssFetch, config: &Config) -> (r: Result<
        Vec<ModelInfo>,
        CodexErr,
    >)
        ensures
            match fetched {
                OssFetch::TimedOut => r == Err::<Vec<ModelInfo>, CodexErr>(CodexErr::Timeout),
                OssFetch::RequestFailed { detail } => r matches Err(
                    CodexErr::InvalidRequest(message),
                ) && message@ == "Failed to fetch models: "@ + detail@,
                OssFetch::ErrorStatus { status } => r matches Err(
                    CodexErr::InvalidRequest(message),
                ) && message@ == "Failed to fetch models: HTTP "@ + status@,
                OssFetch::BodyFailed { detail } => r matches Err(
                    CodexErr::InvalidRequest(message),
                ) && message@ == "Failed to parse models response: "@ + detail@,
                OssFetch::Body(OssListing { data: None }) => r matches Err(
                    CodexErr::InvalidRequest(message),
                ) && message@ == "No 'data' array in models response"@,
                OssFetch::Body(OssListing { data: Some(entries) }) => {
                    &&& r matches Ok(models)
                    &&& models@.len() == listed_ids(entries@).len()
                    &&& forall|i: int|
                        0 <= i < models@.len() ==> is_oss_model_info(
                            #[trigger] models@[i],
                            listed_ids(entries@)[i],
                            self.provider_id(),
                            *config,
                        )
                },
            },
    {
        let listing = match fetched {
            OssFetch::TimedOut => {
                return Err(CodexErr::Timeout);
            },
            OssFetch::RequestFailed { detail } => {
                return Err(
                    CodexErr::InvalidRequest(concat2("Failed to fetch models: ", detail.as_str())),
                );
            },
            OssFetch::ErrorStatus { status } => {
                return Err(
                    CodexErr::InvalidRequest(
                        concat2("Failed to fetch models: HTTP ", status.as_str()),
                    ),
                );
            },
            OssFetch::BodyFailed { detail } => {
                return Err(
                    CodexErr::InvalidRequest(
                        concat2("Failed to parse models response: ", detail.as_str()),
                    ),
                );
            },
            OssFetch::Body(listing) => listing,
        };
        let entries = match listing.data {
            Some(entries) => entries,
            None => {
                return Err(
                    CodexErr::InvalidRequest(
                        String::from_str("No 'data' array in models response"),
                    ),
                );
            },
        };
        let mut models: Vec<ModelInfo> = Vec::new();
        let mut i: usize = 0;
        assert(entries@.take(0) =~= Seq::<Option<String>>::empty());
        while i < entries.len()
            invariant
                0 <= i <= entries@.len(),
                models@.len() == listed_ids(entries@.take(i as int)).len(),
                forall|k: int|
                    0 <= k < models@.len() ==> is_oss_model_info(
                        #[trigger] models@[k],
                        listed_ids(entries@.take(i as int))[k],
                        self.provider_id(),
                        *config,
                    ),
            decreases entries@.len() - i,
        {
            proof {
                let upto = entries@.take(i as int + 1);
                assert(upto.drop_last() =~= entries@.take(i as int));
                assert(upto.last() == entries@[i as int]);
            }
            match &entries[i] {
                Some(id) => {
                    let info = self.create_oss_model_info(id.as_str(), config);
                    models.push(info);
                },
                None => {},
            }
            i = i + 1;
        }
        proof {
            assert(entries@.take(entries@.len() as int) =~= entries@);
        }
        Ok(models)
    }
}

/// The model that is chosen from a list for the picker; see
/// [`default_model_name`].
pub fn default_model_of(available: &Vec<ModelPreset>) -> (name: String)
    ensures
        name@ == default_model_name(available@),
{
    if available.len() == 0 {
        return String::new();
    }
    let mut place: usize = 0;
    assert(available@.subrange(0, available@.len() as int) =~= available@);
    while place < available.len() && !available[place].is_default
        invariant
            0 <= place <= available@.len(),
            first_default(available@) == place + first_default(
                available@.subrange(place as int, available@.len() as int),
            ),
        decreases available@.len() - place,
    {
        proof {
            let tail = available@.subrange(place as int, available@.len() as int);
            assert(tail.drop_first() =~= available@.subrange(
                place as int + 1,
                available@.len() as int,
            ));
        }
        place = place + 1;
    }
    proof {
        let tail = available@.subrange(place as int, available@.len() as int);
        if place < available@.len() {
            assert(tail[0] == available@[place as int]);
        }
    }
    if place < available.len() {
        available[place].model.clone()
    } else {
        available[0].model.clone()
    }
}

/// In a list that is in the order of priorities, the insertion point of
/// a priority parts the models that do not come after it from those that
/// do.
pub proof fn lemma_insertion_point_parts(sorted: Seq<ModelInfo>, priority: i32)
    requires
        in_priority_order(sorted),
    ensures
        0 <= insertion_point(sorted, priority) <= sorted.len(),
        forall|i: int|
            0 <= i < insertion_point(sorted, priority) ==> (#[trigger] sorted[i]).priority
                <= priority,
        forall|i: int|
            insertion_point(sorted, priority) <= i < sorted.len() ==> (#[trigger] sorted[i]).priority
                > priority,
    decreases sorted.len(),
{
    if sorted.len() > 0 && sorted.last().priority > priority {
        let head = sorted.drop_last();
        assert forall|i: int, j: int| 0 <= i <= j < head.len() implies head[i].priority
            <= head[j].priority by {
            assert(head[i] == sorted[i] && head[j] == sorted[j]);
        }
        lemma_insertion_point_parts(head, priority);
        assert forall|i: int| 0 <= i < insertion_point(sorted, priority) implies (
        #[trigger] sorted[i]).priority <= priority by {
            assert(sorted[i] == head[i]);
        }
        assert forall|i: int|
            insertion_point(sorted, priority) <= i < sorted.len() implies (
        #[trigger] sorted[i]).priority > priority by {
            if i < head.len() {
                assert(sorted[i] == head[i]);
            }
        }
    }
}

/// Sorting by priority rearranges the models and loses none: the result
/// is in the order of priorities and holds each model as often as the list
/// that was sorted.
pub proof fn lemma_sorted_by_priority_is_sorted(infos: Seq<ModelInfo>)
    ensures
        in_priority_order(sorted_by_priority(infos)),
        sorted_by_priority(infos).len() == infos.len(),
        sorted_by_priority(infos).to_multiset() == infos.to_multiset(),
    decreases infos.len(),
{
    broadcast use vstd::seq_lib::group_to_multiset_ensures;

    if infos.len() > 0 {
        let head = infos.drop_last();
        let last = infos.last();
        lemma_sorted_by_priority_is_sorted(head);
        let before = sorted_by_priority(head);
        lemma_insertion_point_parts(before, last.priority);
        let place = insertion_point(before, last.priority);
        let after = before.insert(place, last);
        assert(after == sorted_by_priority(infos));
        assert forall|i: int, j: int| 0 <= i <= j < after.len() implies after[i].priority
            <= after[j].priority by {
            if j < place {
                assert(after[i] == before[i] && after[j] == before[j]);
            } else if j == place {
                if i < place {
                    assert(after[i] == before[i]);
                }
            } else {
                assert(after[j] == before[j - 1]);
                if i < place {
                    assert(after[i] == before[i]);
                } else if i > place {
                    assert(after[i] == before[i - 1]);
                }
            }
        }
        assert(after.remove(place) =~= before);
        assert(after[place] == last);
        assert(after.to_multiset() =~= before.to_multiset().insert(last)) by {
            vstd::seq_lib::to_multiset_remove(after, place);
            assert(after.to_multiset().count(last) > 0) by {
                assert(after.contains(last));
            }
        }
        assert(infos =~= head.push(last));
        assert(infos.to_multiset() =~= head.to_multiset().insert(last));
    }
}

/// A list for the picker that is not empty has exactly one default, at
/// [`default_place`]: a preset shown in the picker where one is shown.
pub proof fn lemma_exactly_one_default(presets: Seq<ModelPreset>)
    requires
        presets.len() > 0,
    ensures
        0 <= default_place(presets) < presets.len(),
        with_default(presets).len() == presets.len(),
        forall|i: int|
            0 <= i < presets.len() ==> ((#[trigger] with_default(presets)[i]).is_default <==> i
                == default_place(presets)),
        (exists|i: int| 0 <= i < presets.len() && (#[trigger] presets[i]).show_in_picker)
            ==> presets[default_place(presets)].show_in_picker,
{
    lemma_first_in_picker(presets);
}

/// The first preset shown in the picker is shown, and none before it is.
pub proof fn lemma_first_in_picker(presets: Seq<ModelPreset>)
    ensures
        0 <= first_in_picker(presets) <= presets.len(),
        first_in_picker(presets) < presets.len() ==> presets[first_in_picker(
            presets,
        )].show_in_picker,
        forall|i: int|
            0 <= i < first_in_picker(presets) ==> !(#[trigger] presets[i]).show_in_picker,
    decreases presets.len(),
{
    if presets.len() > 0 && !presets[0].show_in_picker {
        let tail = presets.drop_first();
        lemma_first_in_picker(tail);
        assert forall|i: int| 0 <= i < first_in_picker(presets) implies !(
        #[trigger] presets[i]).show_in_picker by {
            if i > 0 {
                assert(presets[i] == tail[i - 1]);
            }
        }
        if first_in_picker(presets) < presets.len() {
            assert(presets[first_in_picker(presets)] == tail[first_in_picker(tail)]);
        }
    }
}

} // verus!
