//! The target application's configuration: what is read from its file, and
//! the commands that write settings back through its own command line.

use crate::executor::{CommandExecutor, CommandSpec, CommandView, ProcessResult, ProcessView, activated_command};
use crate::json::{Json, JsonView, descend, json_document, parse};
use crate::list::{empty, push_item};
use crate::progress::{ErrorKind, ErrorView, InstallError, failure};
use crate::text::{before_first, cat2, cat3, join, joined, same_text, take_before};
use vstd::prelude::*;
use vstd::string::*;

verus! {

/// Where the configuration lies, below the home directory.
pub const CONFIG_SUBPATH: &'static str = "/.openclaw/openclaw.json";

pub const DEFAULT_MODE: &'static str = "local";

pub const REMOTE_MODE: &'static str = "remote";

pub const DEFAULT_WORKSPACE: &'static str = "~/clawd";

pub const READ_FAILED: &'static str = "读取配置文件失败: ";

pub const PARSE_FAILED: &'static str = "解析配置文件失败: ";

pub const SETUP_SPAWN_FAILED: &'static str = "执行 openclaw setup 失败: ";

pub const SAVE_FAILED: &'static str = "配置失败: ";

pub const SAVED: &'static str = "配置保存成功";

/// The start of the script that runs the target application's setup.
pub const SETUP_PROGRAM: &'static str = "openclaw ";

/// The script that stores one key, up to the provider's name.
pub const KEY_SCRIPT_HEAD: &'static str = "openclaw config set auth.profiles.";

/// The script that stores one key, between the provider's name and the key.
pub const KEY_SCRIPT_MIDDLE: &'static str = ":default.apiKey '";

/// The script that stores one key, after the key.
pub const KEY_SCRIPT_TAIL: &'static str = "'";

/// What the program found where the configuration should lie.
#[derive(Debug)]
pub enum ConfigFile {
    /// There is no such file.
    Missing,
    /// The file is there but could not be read; `error` says why.
    Unreadable { error: String },
    /// The file's text.
    Content { text: String },
}

/// A configuration file as plain values.
pub ghost enum ConfigFileView {
    Missing,
    Unreadable { error: Seq<char> },
    Content { text: Seq<char> },
}

impl View for ConfigFile {
    type V = ConfigFileView;

    open spec fn view(&self) -> ConfigFileView {
        match self {
            ConfigFile::Missing => ConfigFileView::Missing,
            ConfigFile::Unreadable { error } => ConfigFileView::Unreadable { error: error@ },
            ConfigFile::Content { text } => ConfigFileView::Content { text: text@ },
        }
    }
}

/// One provider for which the configuration holds a key.
#[derive(Debug)]
pub struct ProviderProfile {
    /// The provider: the profile's name up to its first colon.
    pub provider: String,
    /// The profile's full name.
    pub profile: String,
    pub api_key: String,
    pub provider_name: Option<String>,
}

/// A provider's profile as plain values.
pub ghost struct ProfileView {
    pub provider: Seq<char>,
    pub profile: Seq<char>,
    pub api_key: Seq<char>,
    pub provider_name: Option<Seq<char>>,
}

impl View for ProviderProfile {
    type V = ProfileView;

    open spec fn view(&self) -> ProfileView {
        ProfileView {
            provider: self.provider@,
            profile: self.profile@,
            api_key: self.api_key@,
            provider_name: self.provider_name.deep_view(),
        }
    }
}

impl DeepView for ProviderProfile {
    type V = ProfileView;

    open spec fn deep_view(&self) -> ProfileView {
        self@
    }
}

/// One model that the configuration declares.
#[derive(Debug)]
pub struct ModelEntry {
    pub provider: String,
    pub id: String,
    pub name: String,
}

/// A model as plain values.
pub ghost struct ModelView {
    pub provider: Seq<char>,
    pub id: Seq<char>,
    pub name: Seq<char>,
}

impl View for ModelEntry {
    type V = ModelView;

    open spec fn view(&self) -> ModelView {
        ModelView { provider: self.provider@, id: self.id@, name: self.name@ }
    }
}

impl DeepView for ModelEntry {
    type V = ModelView;

    open spec fn deep_view(&self) -> ModelView {
        self@
    }
}

/// What the existing configuration says.
#[derive(Debug)]
pub struct ExistingConfig {
    pub exists: bool,
    pub mode: String,
    pub workspace: String,
    /// The providers with a key, each once; `None` where the configuration
    /// has no profiles at all.
    pub profiles: Option<Vec<ProviderProfile>>,
    /// The declared models; `None` where the configuration declares no
    /// providers of models.
    pub models: Option<Vec<ModelEntry>>,
}

/// An existing configuration as plain values.
pub ghost struct ConfigView {
    pub exists: bool,
    pub mode: Seq<char>,
    pub workspace: Seq<char>,
    pub profiles: Option<Seq<ProfileView>>,
    pub models: Option<Seq<ModelView>>,
}

impl View for ExistingConfig {
    type V = ConfigView;

    open spec fn view(&self) -> ConfigView {
        ConfigView {
            exists: self.exists,
            mode: self.mode@,
            workspace: self.workspace@,
            profiles: self.profiles.deep_view(),
            models: self.models.deep_view(),
        }
    }
}

/// What is reported where there is no configuration: that, and nothing else.
pub open spec fn missing_config() -> ConfigView {
    ConfigView {
        exists: false,
        mode: Seq::empty(),
        workspace: Seq::empty(),
        profiles: None,
        models: None,
    }
}

/// The position of the first profile of `provider` at or after `from`; the
/// length of the list where there is none.
pub open spec fn position_of(list: Seq<ProfileView>, provider: Seq<char>, from: int) -> int
    decreases list.len() - from,
{
    if from < 0 || from >= list.len() {
        list.len() as int
    } else if list[from].provider == provider {
        from
    } else {
        position_of(list, provider, from + 1)
    }
}

/// `list` with `entry` in the place of the profile of the same provider, or
/// at the end where the provider is new.
pub open spec fn upsert(list: Seq<ProfileView>, entry: ProfileView) -> Seq<ProfileView> {
    let at = position_of(list, entry.provider, 0);
    if at < list.len() {
        list.update(at, entry)
    } else {
        list.push(entry)
    }
}

/// The profile that one member of `auth.profiles` declares: none where the
/// member holds no key that is a string.
pub open spec fn profile_of(name: Seq<char>, value: JsonView) -> Option<ProfileView> {
    match value.field("apiKey"@).text() {
        Some(api_key) => Some(
            ProfileView {
                provider: before_first(name, ':'),
                profile: name,
                api_key,
                provider_name: value.field("provider"@).text(),
            },
        ),
        None => None,
    }
}

/// The providers with a key among the members of `auth.profiles`. Where two
/// profiles name one provider, the later one counts.
pub open spec fn profiles_of(members: Seq<(Seq<char>, JsonView)>) -> Seq<ProfileView>
    decreases members.len(),
{
    if members.len() == 0 {
        Seq::empty()
    } else {
        let before = profiles_of(members.drop_last());
        match profile_of(members.last().0, members.last().1) {
            Some(entry) => upsert(before, entry),
            None => before,
        }
    }
}

/// The model that one item of a provider's `models` declares: none where
/// the item has no `id` that is a string. A model without a name is called
/// by its `id`.
pub open spec fn model_of(provider: Seq<char>, item: JsonView) -> Option<ModelView> {
    match item.field("id"@).text() {
        Some(id) => Some(ModelView { provider, id, name: item.field("name"@).text_or(id) }),
        None => None,
    }
}

/// The models among `items`, in order.
pub open spec fn models_in(provider: Seq<char>, items: Seq<JsonView>) -> Seq<ModelView>
    decreases items.len(),
{
    if items.len() == 0 {
        Seq::empty()
    } else {
        let before = models_in(provider, items.drop_last());
        match model_of(provider, items.last()) {
            Some(model) => before.push(model),
            None => before,
        }
    }
}

/// The models of all providers among the members of `models.providers`.
pub open spec fn models_of(providers: Seq<(Seq<char>, JsonView)>) -> Seq<ModelView>
    decreases providers.len(),
{
    if providers.len() == 0 {
        Seq::empty()
    } else {
        let before = models_of(providers.drop_last());
        match providers.last().1.field("models"@).items() {
            Some(items) => before + models_in(providers.last().0, items),
            None => before,
        }
    }
}

/// What a configuration document says.
pub open spec fn summary(doc: JsonView) -> ConfigView {
    ConfigView {
        exists: true,
        mode: DEFAULT_MODE@,
        workspace: doc.field("agents"@).field("defaults"@).field("workspace"@).text_or(
            DEFAULT_WORKSPACE@,
        ),
        profiles: match doc.field("auth"@).field("profiles"@).members() {
            Some(members) => Some(profiles_of(members)),
            None => None,
        },
        models: match doc.field("models"@).field("providers"@).members() {
            Some(members) => Some(models_of(members)),
            None => None,
        },
    }
}

/// The keys of the providers, as pairs of provider and key.
pub open spec fn api_keys_of(profiles: Option<Seq<ProfileView>>) -> Seq<(Seq<char>, Seq<char>)> {
    match profiles {
        Some(list) => Seq::new(list.len(), |i: int| (list[i].provider, list[i].api_key)),
        None => Seq::empty(),
    }
}

/// Puts `entry` into `list` in the place of the profile of its provider.
pub fn put_profile(list: &mut Vec<ProviderProfile>, entry: ProviderProfile)
    ensures
        final(list).deep_view() == upsert(old(list).deep_view(), entry@),
{
    let mut at: usize = 0;
    while at < list.len()
        invariant
            at <= list.len(),
            *list == *old(list),
            position_of(list.deep_view(), entry@.provider, 0) == position_of(
                list.deep_view(),
                entry@.provider,
                at as int,
            ),
        decreases list.len() - at,
    {
        if same_text(list[at].provider.as_str(), entry.provider.as_str()) {
            list.set(at, entry);
            return ;
        }
        at += 1;
    }
    push_item(list, entry);
}

/// Reads the providers with a key from the members of `auth.profiles`.
pub fn read_profiles(members: &Vec<(String, Json)>) -> (r: Vec<ProviderProfile>)
    ensures
        r.deep_view() == profiles_of(
            Seq::new(members.len() as nat, |i: int| (members[i].0@, members[i].1@)),
        ),
{
    let ghost all = Seq::new(members.len() as nat, |i: int| (members[i].0@, members[i].1@));
    let mut out: Vec<ProviderProfile> = empty();
    let mut i: usize = 0;
    while i < members.len()
        invariant
            i <= members.len(),
            all == Seq::new(members.len() as nat, |i: int| (members[i].0@, members[i].1@)),
            out.deep_view() == profiles_of(all.take(i as int)),
        decreases members.len() - i,
    {
        proof {
            let next = all.take(i + 1);
            assert(next.drop_last() =~= all.take(i as int));
        }
        let name = &members[i].0;
        let value = &members[i].1;
        match value.text_of("apiKey") {
            Some(api_key) => {
                let provider_name = match value.text_of("provider") {
                    Some(text) => Some(String::from_str(text)),
                    None => None,
                };
                let entry = ProviderProfile {
                    provider: take_before(name.as_str(), ':'),
                    profile: name.clone(),
                    api_key: String::from_str(api_key),
                    provider_name,
                };
                put_profile(&mut out, entry);
            },
            None => {},
        }
        i += 1;
    }
    assert(all.take(members.len() as int) =~= all);
    out
}

/// Reads the models of one provider, adding them to `out`.
pub fn read_models_in(provider: &str, items: &Vec<Json>, out: &mut Vec<ModelEntry>)
    ensures
        final(out).deep_view() == old(out).deep_view() + models_in(
            provider@,
            Seq::new(items.len() as nat, |i: int| items[i]@),
        ),
{
    let ghost all = Seq::new(items.len() as nat, |i: int| items[i]@);
    let mut i: usize = 0;
    while i < items.len()
        invariant
            i <= items.len(),
            all == Seq::new(items.len() as nat, |i: int| items[i]@),
            out.deep_view() == old(out).deep_view() + models_in(provider@, all.take(i as int)),
        decreases items.len() - i,
    {
        proof {
            let next = all.take(i + 1);
            assert(next.drop_last() =~= all.take(i as int));
        }
        let item = &items[i];
        match item.text_of("id") {
            Some(id) => {
                let name = match item.text_of("name") {
                    Some(text) => String::from_str(text),
                    None => String::from_str(id),
                };
                push_item(
                    out,
                    ModelEntry { provider: String::from_str(provider), id: String::from_str(id), name },
                );
            },
            None => {},
        }
        i += 1;
    }
    assert(all.take(items.len() as int) =~= all);
}

/// Reads the declared models from the members of `models.providers`.
pub fn read_models(providers: &Vec<(String, Json)>) -> (r: Vec<ModelEntry>)
    ensures
        r.deep_view() == models_of(
            Seq::new(providers.len() as nat, |i: int| (providers[i].0@, providers[i].1@)),
        ),
{
    let ghost all = Seq::new(providers.len() as nat, |i: int| (providers[i].0@, providers[i].1@));
    let mut out: Vec<ModelEntry> = empty();
    let mut i: usize = 0;
    while i < providers.len()
        invariant
            i <= providers.len(),
            all == Seq::new(providers.len() as nat, |i: int| (providers[i].0@, providers[i].1@)),
            out.deep_view() == models_of(all.take(i as int)),
        decreases providers.len() - i,
    {
        proof {
            let next = all.take(i + 1);
            assert(next.drop_last() =~= all.take(i as int));
        }
        match providers[i].1.items_of("models") {
            Some(items) => {
                assert(providers[i as int].1@.field("models"@).items()->0 =~= Seq::new(
                    items.len() as nat,
                    |k: int| items[k]@,
                ));
                read_models_in(providers[i].0.as_str(), items, &mut out);
            },
            None => {},
        }
        i += 1;
    }
    assert(all.take(providers.len() as int) =~= all);
    out
}

/// Reads what a configuration document says.
pub fn summarize(doc: &Json) -> (r: ExistingConfig)
    ensures
        r@ == summary(doc@),
{
    let root = Some(doc);
    let workspace = match descend(descend(descend(root, "agents"), "defaults"), "workspace") {
        Some(value) => match value.text() {
            Some(text) => String::from_str(text),
            None => String::from_str(DEFAULT_WORKSPACE),
        },
        None => String::from_str(DEFAULT_WORKSPACE),
    };
    let profiles = match descend(root, "auth") {
        Some(auth) => match auth.members_of("profiles") {
            Some(members) => {
                assert(doc@.field("auth"@).field("profiles"@).members()->0 =~= Seq::new(
                    members.len() as nat,
                    |i: int| (members[i].0@, members[i].1@),
                ));
                Some(read_profiles(members))
            },
            None => None,
        },
        None => None,
    };
    let models = match descend(root, "models") {
        Some(section) => match section.members_of("providers") {
            Some(members) => {
                assert(doc@.field("models"@).field("providers"@).members()->0 =~= Seq::new(
                    members.len() as nat,
                    |i: int| (members[i].0@, members[i].1@),
                ));
                Some(read_models(members))
            },
            None => None,
        },
        None => None,
    };
    ExistingConfig {
        exists: true,
        mode: String::from_str(DEFAULT_MODE),
        workspace,
        profiles,
        models,
    }
}

impl ExistingConfig {
    /// What is reported where there is no configuration.
    pub fn missing() -> (r: ExistingConfig)
        ensures
            r@ == missing_config(),
    {
        ExistingConfig {
            exists: false,
            mode: String::new(),
            workspace: String::new(),
            profiles: None,
            models: None,
        }
    }

    /// The keys of the providers, as pairs of provider and key.
    pub fn api_keys(&self) -> (r: Vec<(String, String)>)
        ensures
            r.deep_view() == api_keys_of(self@.profiles),
    {
        let mut out: Vec<(String, String)> = empty();
        match &self.profiles {
            Some(list) => {
                let mut i: usize = 0;
                while i < list.len()
                    invariant
                        i <= list.len(),
                        self.profiles == Some(*list),
                        out.deep_view() == api_keys_of(self@.profiles).take(i as int),
                    decreases list.len() - i,
                {
                    push_item(&mut out, (list[i].provider.clone(), list[i].api_key.clone()));
                    i += 1;
                }
            },
            None => {},
        }
        out
    }
}

/// Where the configuration of a user lies.
pub fn config_path(home: &str) -> (r: String)
    ensures
        r@ == home@ + CONFIG_SUBPATH@,
{
    cat2(home, CONFIG_SUBPATH)
}

/// Reads the existing configuration from what was found in its place.
///
/// A missing file is no error: it is reported as such, and nothing is read.
/// A file that could not be read, or whose text is no JSON document, is an
/// error of the call.
pub fn load_existing_config(file: &ConfigFile) -> (r: Result<ExistingConfig, InstallError>)
    ensures
        match file@ {
            ConfigFileView::Missing => r is Ok && r->Ok_0@ == missing_config(),
            ConfigFileView::Unreadable { error } => r is Err && r->Err_0@ == failure(
                ErrorKind::ConfigParseFailure,
                READ_FAILED@,
                error,
            ),
            ConfigFileView::Content { text } => match json_document(text) {
                Some(doc) => r is Ok && r->Ok_0@ == summary(doc),
                None => {
                    &&& r is Err
                    &&& r->Err_0@.kind == ErrorKind::ConfigParseFailure
                    &&& r->Err_0@.message.len() >= PARSE_FAILED@.len()
                    &&& r->Err_0@.message.subrange(0, PARSE_FAILED@.len() as int) == PARSE_FAILED@
                },
            },
        },
{
    match file {
        ConfigFile::Missing => Ok(ExistingConfig::missing()),
        ConfigFile::Unreadable { error } => Err(
            InstallError::new(ErrorKind::ConfigParseFailure, READ_FAILED, error.as_str()),
        ),
        ConfigFile::Content { text } => match parse(text.as_str()) {
            Ok(doc) => Ok(summarize(&doc)),
            Err(detail) => {
                let e = InstallError::new(
                    ErrorKind::ConfigParseFailure,
                    PARSE_FAILED,
                    detail.as_str(),
                );
                Err(e)
            },
        },
    }
}

/// A profile is found at its position, and nowhere before it.
pub proof fn lemma_position_of(list: Seq<ProfileView>, provider: Seq<char>, from: int)
    requires
        0 <= from <= list.len(),
    ensures
        from <= position_of(list, provider, from) <= list.len(),
        position_of(list, provider, from) < list.len() ==> list[position_of(
            list,
            provider,
            from,
        )].provider == provider,
        forall|j: int|
            from <= j < position_of(list, provider, from) ==> (#[trigger] list[j]).provider
                != provider,
    decreases list.len() - from,
{
    if from < list.len() && list[from].provider != provider {
        lemma_position_of(list, provider, from + 1);
    }
}

/// No two entries of `list` name the same provider.
pub open spec fn distinct_providers(list: Seq<ProfileView>) -> bool {
    forall|i: int, j: int|
        0 <= i < j < list.len() ==> (#[trigger] list[i]).provider != (#[trigger] list[j]).provider
}

/// The providers read from a configuration form a mapping: each provider
/// stands in the list once.
pub proof fn lemma_profiles_distinct(members: Seq<(Seq<char>, JsonView)>)
    ensures
        distinct_providers(profiles_of(members)),
    decreases members.len(),
{
    if members.len() > 0 {
        let before = profiles_of(members.drop_last());
        lemma_profiles_distinct(members.drop_last());
        match profile_of(members.last().0, members.last().1) {
            Some(entry) => {
                lemma_position_of(before, entry.provider, 0);
                let after = upsert(before, entry);
                let at = position_of(before, entry.provider, 0);
                assert forall|i: int, j: int| 0 <= i < j < after.len() implies (
                #[trigger] after[i]).provider != (#[trigger] after[j]).provider by {
                    if at < before.len() {
                        assert(after[i].provider == before[i].provider);
                        assert(after[j].provider == before[j].provider);
                    } else if j < before.len() {
                        assert(after[i] == before[i] && after[j] == before[j]);
                    } else {
                        assert(after[i] == before[i]);
                    }
                }
            },
            None => {},
        }
    }
}

/// A profile with a key puts its provider's key into the mapping: after it
/// is read, the list holds the provider with exactly that key.
pub proof fn lemma_last_profile_counts(members: Seq<(Seq<char>, JsonView)>)
    requires
        members.len() > 0,
        profile_of(members.last().0, members.last().1) is Some,
    ensures
        ({
            let entry = profile_of(members.last().0, members.last().1)->0;
            let list = profiles_of(members);
            let at = position_of(list, entry.provider, 0);
            at < list.len() && list[at] == entry
        }),
{
    let entry = profile_of(members.last().0, members.last().1)->0;
    let before = profiles_of(members.drop_last());
    let list = profiles_of(members);
    lemma_position_of(before, entry.provider, 0);
    let at = position_of(before, entry.provider, 0);
    lemma_position_of(list, entry.provider, 0);
    assert(list[at] == entry);
    assert forall|j: int| 0 <= j < at implies (#[trigger] list[j]).provider != entry.provider by {
        assert(list[j] == before[j]);
    }
}

/// The commands that save a configuration: the setup, and one command for
/// each key, to be run after a successful setup.
#[derive(Debug)]
pub struct SavePlan {
    pub setup: CommandSpec,
    pub key_commands: Vec<CommandSpec>,
}

/// A plan as plain values.
pub ghost struct SavePlanView {
    pub setup: CommandView,
    pub key_commands: Seq<CommandView>,
}

impl View for SavePlan {
    type V = SavePlanView;

    open spec fn view(&self) -> SavePlanView {
        SavePlanView { setup: self.setup@, key_commands: self.key_commands.deep_view() }
    }
}

/// The text of a member that may be missing; empty where it is no string.
pub open spec fn text_or_empty(value: JsonView) -> Seq<char> {
    match value.text() {
        Some(s) => s,
        None => Seq::empty(),
    }
}

/// The arguments of the setup for the settings in `config`. The remote
/// address is passed on in remote mode only, and the remote token only
/// together with an address.
pub open spec fn setup_arguments(config: JsonView) -> Seq<Seq<char>> {
    let mode = config.field("mode"@).text_or(DEFAULT_MODE@);
    let workspace = config.field("workspace"@).text_or(DEFAULT_WORKSPACE@);
    let url = text_or_empty(config.field("remoteUrl"@));
    let token = text_or_empty(config.field("remoteToken"@));
    let base = seq![
        "setup"@,
        "--non-interactive"@,
        "--accept-risks"@,
        "--mode"@,
        mode,
        "--workspace"@,
        workspace,
    ];
    if mode == REMOTE_MODE@ && url.len() > 0 {
        if token.len() > 0 {
            base.push("--remote-url"@).push(url).push("--remote-token"@).push(token)
        } else {
            base.push("--remote-url"@).push(url)
        }
    } else {
        base
    }
}

/// The command that stores the key of `provider`.
pub open spec fn key_command(provider: Seq<char>, key: Seq<char>) -> CommandView {
    activated_command(
        KEY_SCRIPT_HEAD@ + provider + KEY_SCRIPT_MIDDLE@ + key + KEY_SCRIPT_TAIL@,
    )
}

/// The commands that store the keys among the members of `apiKeys`: one for
/// each member whose value is a string that is not empty.
pub open spec fn key_commands(members: Seq<(Seq<char>, JsonView)>) -> Seq<CommandView>
    decreases members.len(),
{
    if members.len() == 0 {
        Seq::empty()
    } else {
        let before = key_commands(members.drop_last());
        match members.last().1.text() {
            Some(key) => if key.len() > 0 {
                before.push(key_command(members.last().0, key))
            } else {
                before
            },
            None => before,
        }
    }
}

/// The commands that save the settings in `config`.
pub open spec fn save_plan(config: JsonView) -> SavePlanView {
    SavePlanView {
        setup: activated_command(SETUP_PROGRAM@ + joined(setup_arguments(config), " "@)),
        key_commands: match config.field("apiKeys"@).members() {
            Some(members) => key_commands(members),
            None => Seq::empty(),
        },
    }
}

/// Builds the arguments of the setup.
pub fn build_setup_arguments(config: &Json) -> (r: Vec<String>)
    ensures
        r.deep_view() == setup_arguments(config@),
{
    let mode = config.text_or("mode", DEFAULT_MODE);
    let workspace = config.text_or("workspace", DEFAULT_WORKSPACE);
    let remote = same_text(mode.as_str(), REMOTE_MODE);
    let mut args: Vec<String> = empty();
    push_item(&mut args, String::from_str("setup"));
    push_item(&mut args, String::from_str("--non-interactive"));
    push_item(&mut args, String::from_str("--accept-risks"));
    push_item(&mut args, String::from_str("--mode"));
    push_item(&mut args, mode);
    push_item(&mut args, String::from_str("--workspace"));
    push_item(&mut args, workspace);
    if remote {
        match config.text_of("remoteUrl") {
            Some(url) => {
                if !url.is_empty() {
                    push_item(&mut args, String::from_str("--remote-url"));
                    push_item(&mut args, String::from_str(url));
                    match config.text_of("remoteToken") {
                        Some(token) => {
                            if !token.is_empty() {
                                push_item(&mut args, String::from_str("--remote-token"));
                                push_item(&mut args, String::from_str(token));
                            }
                        },
                        None => {},
                    }
                }
            },
            None => {},
        }
    }
    args
}

/// Builds the commands that store the keys among the members of `apiKeys`.
pub fn build_key_commands(members: &Vec<(String, Json)>) -> (r: Vec<CommandSpec>)
    ensures
        r.deep_view() == key_commands(
            Seq::new(members.len() as nat, |i: int| (members[i].0@, members[i].1@)),
        ),
{
    let ghost all = Seq::new(members.len() as nat, |i: int| (members[i].0@, members[i].1@));
    let mut out: Vec<CommandSpec> = empty();
    let mut i: usize = 0;
    while i < members.len()
        invariant
            i <= members.len(),
            all == Seq::new(members.len() as nat, |i: int| (members[i].0@, members[i].1@)),
            out.deep_view() == key_commands(all.take(i as int)),
        decreases members.len() - i,
    {
        proof {
            let next = all.take(i + 1);
            assert(next.drop_last() =~= all.take(i as int));
        }
        match members[i].1.text() {
            Some(key) => {
                if !key.is_empty() {
                    let mut script = cat3(
                        KEY_SCRIPT_HEAD,
                        members[i].0.as_str(),
                        KEY_SCRIPT_MIDDLE,
                    );
                    script.append(key);
                    script.append(KEY_SCRIPT_TAIL);
                    push_item(&mut out, CommandExecutor::activated(script.as_str()));
                }
            },
            None => {},
        }
        i += 1;
    }
    assert(all.take(members.len() as int) =~= all);
    out
}

/// Plans how to save the settings in `config`: the setup of the target
/// application with the mode and the workspace, then one command for each
/// key.
pub fn save_config(config: &Json) -> (r: SavePlan)
    ensures
        r@ == save_plan(config@),
{
    let args = build_setup_arguments(config);
    let script = cat2(SETUP_PROGRAM, join(&args, " ").as_str());
    let key_commands = match config.members_of("apiKeys") {
        Some(members) => {
            assert(config@.field("apiKeys"@).members()->0 =~= Seq::new(
                members.len() as nat,
                |i: int| (members[i].0@, members[i].1@),
            ));
            build_key_commands(members)
        },
        None => empty(),
    };
    SavePlan { setup: CommandExecutor::activated(script.as_str()), key_commands }
}

/// What saving comes to, given how the setup ended.
pub open spec fn save_result(setup: ProcessView) -> Result<Seq<char>, ErrorView> {
    match setup {
        ProcessView::SpawnFailed { error } => Err(
            failure(ErrorKind::ConfigCommandFailure, SETUP_SPAWN_FAILED@, error),
        ),
        ProcessView::Exited { success, stdout, stderr } => if success {
            Ok(SAVED@)
        } else {
            Err(failure(ErrorKind::ConfigCommandFailure, SAVE_FAILED@, stderr))
        },
    }
}

/// What follows the setup: the commands still to run, and the result.
#[derive(Debug)]
pub struct SaveOutcome {
    /// The commands to run now; how they end does not matter.
    pub commands: Vec<CommandSpec>,
    pub result: Result<String, InstallError>,
}

impl SavePlan {
    /// Decides what follows the setup. Where the setup succeeded, the keys
    /// are stored and saving has succeeded, however the key commands end.
    /// Where it failed, nothing more is run and saving has failed.
    pub fn conclude(self, setup: &ProcessResult) -> (r: SaveOutcome)
        ensures
            crate::progress::result_view(r.result) == save_result(setup@),
            r.commands.deep_view() == if setup@.succeeded() {
                self@.key_commands
            } else {
                Seq::empty()
            },
    {
        match setup {
            ProcessResult::SpawnFailed { error } => SaveOutcome {
                commands: empty(),
                result: Err(
                    InstallError::new(
                        ErrorKind::ConfigCommandFailure,
                        SETUP_SPAWN_FAILED,
                        error.as_str(),
                    ),
                ),
            },
            ProcessResult::Exited { success, stderr, .. } => {
                if *success {
                    SaveOutcome { commands: self.key_commands, result: Ok(String::from_str(SAVED)) }
                } else {
                    SaveOutcome {
                        commands: empty(),
                        result: Err(
                            InstallError::new(
                                ErrorKind::ConfigCommandFailure,
                                SAVE_FAILED,
                                stderr.as_str(),
                            ),
                        ),
                    }
                }
            },
        }
    }
}

} // verus!
