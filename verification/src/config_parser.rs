//! The configuration synchronizer: materializes a vendor profile into
//! each tool's native configuration document. Every merge is
//! read-merge-write on the document model: it overwrites a fixed,
//! documented key subset and carries every other entry through
//! unchanged. The caller reads the native file into a
//! [`crate::document::ConfigValue`] table, hands it here, and writes
//! the merged table back.

use vstd::prelude::*;

use crate::assoc::assoc_get;
use crate::assoc::assoc_set;
use crate::document::entries_view;
use crate::document::duplicate_entries;
use crate::document::table_get;
use crate::document::table_set;
use crate::document::ConfigModel;
use crate::document::ConfigValue;
use crate::document::TableModel;
use crate::text::opt_string_view;
use crate::vendor::opt_input_view;
use crate::vendor::Vendor;
use crate::vendor::VendorInput;
use crate::vendor::VendorInputModel;
use crate::vendor::VendorModel;

verus! {

/// What parsing a free-form JSON text yields of its top-level
/// string-valued members: nothing when the text is not JSON, else the
/// map of those members (empty when the document is not an object).
pub uninterp spec fn json_top_strings(s: Seq<char>) -> Option<Map<Seq<char>, Seq<char>>>;

/// Relies on serde_json::from_str and serde_json::Value::{get, as_str}:
/// whether a text parses as JSON and what its members hold depend on
/// the text alone; `get` returns the member under a key of an object
/// and nothing otherwise; `as_str` returns the text of a string member
/// and nothing otherwise.
#[verifier::external_body]
fn json_top_string(s: &str, key: &str) -> (r: Option<String>)
    ensures
        match json_top_strings(s@) {
            Some(m) => if m.contains_key(key@) {
                r matches Some(v) && v@ == m[key@]
            } else {
                r is None
            },
            None => r is None,
        },
{
    match serde_json::from_str::<serde_json::Value>(s) {
        Ok(v) => v.get(key).and_then(|x| x.as_str()).map(|x| x.to_string()),
        Err(_) => None,
    }
}

/// The top-level string member `key` of a profile's extra-options
/// text, when the text is present, parses as JSON, and has it. A
/// malformed text yields nothing, exactly as an absent one does.
pub open spec fn extra_str(config_json: Option<Seq<char>>, key: Seq<char>) -> Option<Seq<char>> {
    match config_json {
        Some(s) => match json_top_strings(s) {
            Some(m) => if m.contains_key(key) {
                Some(m[key])
            } else {
                None
            },
            None => None,
        },
        None => None,
    }
}

/// Reads one recognized key out of a profile's extra-options text.
fn extra_option(config_json: &Option<String>, key: &str) -> (r: Option<String>)
    ensures
        opt_string_view(r) == extra_str(opt_string_view(*config_json), key@),
{
    match config_json {
        Some(s) => json_top_string(s.as_str(), key),
        None => None,
    }
}

/// The credential keys written into the settings `env` table, with the
/// model overrides the profile's extra options supply.
pub open spec fn alpha_env_updates(env: TableModel, v: VendorModel) -> TableModel {
    let e1 = assoc_set(env, "ANTHROPIC_AUTH_TOKEN"@, ConfigModel::Str(v.token));
    let e2 = assoc_set(e1, "ANTHROPIC_BASE_URL"@, ConfigModel::Str(v.base_url));
    let e3 = assoc_set(e2, "ALPHA_CODE_DISABLE_NONESSENTIAL_TRAFFIC"@, ConfigModel::Int(1));
    let e4 = match extra_str(v.config_json, "sonnetModel"@) {
        Some(m) => assoc_set(e3, "ANTHROPIC_DEFAULT_SONNET_MODEL"@, ConfigModel::Str(m)),
        None => e3,
    };
    let e5 = match extra_str(v.config_json, "haikuModel"@) {
        Some(m) => assoc_set(e4, "ANTHROPIC_DEFAULT_HAIKU_MODEL"@, ConfigModel::Str(m)),
        None => e4,
    };
    let e6 = match extra_str(v.config_json, "opusModel"@) {
        Some(m) => assoc_set(e5, "ANTHROPIC_DEFAULT_OPUS_MODEL"@, ConfigModel::Str(m)),
        None => e5,
    };
    match v.model {
        Some(m) => assoc_set(e6, "ANTHROPIC_MODEL"@, ConfigModel::Str(m)),
        None => e6,
    }
}

/// The merged settings document: the `env` table gains the credential
/// keys; every other entry of the document, and every unrelated entry
/// of `env`, is carried through. An existing `env` that is not a table
/// leaves the document unchanged, there being nothing to merge into.
pub open spec fn alpha_merge(root: TableModel, v: VendorModel) -> TableModel {
    match assoc_get(root, "env"@) {
        None => assoc_set(
            root,
            "env"@,
            ConfigModel::Table(alpha_env_updates(Seq::empty(), v)),
        ),
        Some(cur) => match cur {
            ConfigModel::Table(env) => assoc_set(
                root,
                "env"@,
                ConfigModel::Table(alpha_env_updates(env, v)),
            ),
            _ => root,
        },
    }
}

/// Writes the credential keys into an `env` table.
fn apply_env_updates(env: &mut Vec<(String, ConfigValue)>, vendor: &Vendor)
    ensures
        entries_view(final(env)@) == alpha_env_updates(entries_view(old(env)@), vendor@),
{
    table_set(env, "ANTHROPIC_AUTH_TOKEN", ConfigValue::Str(vendor.token.clone()));
    table_set(env, "ANTHROPIC_BASE_URL", ConfigValue::Str(vendor.base_url.clone()));
    table_set(env, "ALPHA_CODE_DISABLE_NONESSENTIAL_TRAFFIC", ConfigValue::Int(1));
    match extra_option(&vendor.config_json, "sonnetModel") {
        Some(m) => table_set(env, "ANTHROPIC_DEFAULT_SONNET_MODEL", ConfigValue::Str(m)),
        None => {},
    }
    match extra_option(&vendor.config_json, "haikuModel") {
        Some(m) => table_set(env, "ANTHROPIC_DEFAULT_HAIKU_MODEL", ConfigValue::Str(m)),
        None => {},
    }
    match extra_option(&vendor.config_json, "opusModel") {
        Some(m) => table_set(env, "ANTHROPIC_DEFAULT_OPUS_MODEL", ConfigValue::Str(m)),
        None => {},
    }
    match &vendor.model {
        Some(m) => table_set(env, "ANTHROPIC_MODEL", ConfigValue::Str(m.clone())),
        None => {},
    }
}

/// Merges `vendor` into the settings document, as `alpha_merge`
/// describes it: the `env` table gains the credential and model keys,
/// every unrelated entry stays as it was.
pub fn write_alpha_settings(doc: &mut Vec<(String, ConfigValue)>, vendor: &Vendor)
    ensures
        entries_view(final(doc)@) == alpha_merge(entries_view(old(doc)@), vendor@),
{
    let mut env: Vec<(String, ConfigValue)>;
    match table_get(doc, "env") {
        Some(cur) => {
            match cur {
                ConfigValue::Table(t) => {
                    env = duplicate_entries(t);
                },
                _ => {
                    return ;
                },
            }
        },
        None => {
            env = Vec::new();
            proof {
                assert(entries_view(env@) =~= Seq::<(Seq<char>, ConfigModel)>::empty());
            }
        },
    }
    apply_env_updates(&mut env, vendor);
    table_set(doc, "env", ConfigValue::Table(env));
}

/// The provider-table key a profile files its entry under.
pub open spec fn codex_provider_key(v: VendorModel) -> Seq<char> {
    match v.vendor_key {
        Some(k) => k,
        None => "custom"@,
    }
}

/// The model the merged document selects: the extra-options override
/// when present, else the profile's model, else the stock default.
pub open spec fn codex_model(v: VendorModel) -> Seq<char> {
    match extra_str(v.config_json, "model"@) {
        Some(m) => m,
        None => match v.model {
            Some(m) => m,
            None => "gpt-4o"@,
        },
    }
}

/// The reasoning effort the merged document selects.
pub open spec fn codex_reasoning(v: VendorModel) -> Seq<char> {
    match extra_str(v.config_json, "reasoningEffort"@) {
        Some(r) => r,
        None => "high"@,
    }
}

/// The provider entry written for a profile.
pub open spec fn codex_provider_entry(v: VendorModel) -> TableModel {
    seq![
        ("name"@, ConfigModel::Str(v.name)),
        ("base_url"@, ConfigModel::Str(v.base_url)),
        ("wire_api"@, ConfigModel::Str("openai"@)),
        ("requires_openai_auth"@, ConfigModel::Bool(true)),
    ]
}

/// The merged configuration document: the four selection keys are
/// written, the profile's entry is filed in the provider table under
/// its provider key, and every other entry — other providers above
/// all — is carried through. A `model_providers` entry that is not a
/// table is left alone.
pub open spec fn codex_merge(root: TableModel, v: VendorModel) -> TableModel {
    let r1 = assoc_set(root, "model_provider"@, ConfigModel::Str(codex_provider_key(v)));
    let r2 = assoc_set(r1, "model"@, ConfigModel::Str(codex_model(v)));
    let r3 = assoc_set(r2, "model_reasoning_effort"@, ConfigModel::Str(codex_reasoning(v)));
    let r4 = assoc_set(r3, "disable_response_storage"@, ConfigModel::Bool(true));
    match assoc_get(r4, "model_providers"@) {
        None => assoc_set(
            r4,
            "model_providers"@,
            ConfigModel::Table(
                assoc_set(Seq::empty(), codex_provider_key(v), ConfigModel::Table(codex_provider_entry(v))),
            ),
        ),
        Some(cur) => match cur {
            ConfigModel::Table(t) => assoc_set(
                r4,
                "model_providers"@,
                ConfigModel::Table(
                    assoc_set(t, codex_provider_key(v), ConfigModel::Table(codex_provider_entry(v))),
                ),
            ),
            _ => r4,
        },
    }
}

/// The secrets document written beside the configuration: the token
/// under the key the tool reads its API key from, and nothing else.
pub open spec fn codex_auth(v: VendorModel) -> TableModel {
    seq![("OPENAI_API_KEY"@, ConfigModel::Str(v.token))]
}

/// The provider entry for `vendor`, as an owned table.
fn build_codex_provider(vendor: &Vendor) -> (r: Vec<(String, ConfigValue)>)
    ensures
        entries_view(r@) == codex_provider_entry(vendor@),
{
    let r: Vec<(String, ConfigValue)> = vec![
        ("name".to_owned(), ConfigValue::Str(vendor.name.clone())),
        ("base_url".to_owned(), ConfigValue::Str(vendor.base_url.clone())),
        ("wire_api".to_owned(), ConfigValue::Str("openai".to_owned())),
        ("requires_openai_auth".to_owned(), ConfigValue::Bool(true)),
    ];
    proof {
        assert(entries_view(r@) =~= codex_provider_entry(vendor@));
    }
    r
}

/// Merges `vendor` into the configuration document, as `codex_merge`
/// describes it, and returns the secrets document to write beside it.
/// Both documents must be written for the synchronization to be
/// complete; the caller writes them one after the other, without
/// rollback on a partial failure.
pub fn write_codex_config(config: &mut Vec<(String, ConfigValue)>, vendor: &Vendor) -> (auth: Vec<
    (String, ConfigValue),
>)
    ensures
        entries_view(final(config)@) == codex_merge(entries_view(old(config)@), vendor@),
        entries_view(auth@) == codex_auth(vendor@),
{
    let provider_key: String = match &vendor.vendor_key {
        Some(k) => k.clone(),
        None => "custom".to_owned(),
    };
    let model: String = match extra_option(&vendor.config_json, "model") {
        Some(m) => m,
        None => match &vendor.model {
            Some(m) => m.clone(),
            None => "gpt-4o".to_owned(),
        },
    };
    let reasoning: String = match extra_option(&vendor.config_json, "reasoningEffort") {
        Some(r) => r,
        None => "high".to_owned(),
    };
    table_set(config, "model_provider", ConfigValue::Str(provider_key.clone()));
    table_set(config, "model", ConfigValue::Str(model));
    table_set(config, "model_reasoning_effort", ConfigValue::Str(reasoning));
    table_set(config, "disable_response_storage", ConfigValue::Bool(true));
    let mut providers: Vec<(String, ConfigValue)>;
    let mut skip_providers: bool = false;
    match table_get(config, "model_providers") {
        Some(cur) => {
            match cur {
                ConfigValue::Table(t) => {
                    providers = duplicate_entries(t);
                },
                _ => {
                    providers = Vec::new();
                    skip_providers = true;
                },
            }
        },
        None => {
            providers = Vec::new();
            proof {
                assert(entries_view(providers@) =~= Seq::<(Seq<char>, ConfigModel)>::empty());
            }
        },
    }
    if !skip_providers {
        let entry = build_codex_provider(vendor);
        table_set(&mut providers, provider_key.as_str(), ConfigValue::Table(entry));
        table_set(config, "model_providers", ConfigValue::Table(providers));
    }
    let auth: Vec<(String, ConfigValue)> = vec![
        ("OPENAI_API_KEY".to_owned(), ConfigValue::Str(vendor.token.clone())),
    ];
    proof {
        assert(entries_view(auth@) =~= codex_auth(vendor@));
    }
    auth
}

/// The text under `key` in the document's `env` table, with an empty
/// text standing in wherever the table, the key or a string value is
/// missing.
pub open spec fn env_text_entry(root: TableModel, key: Seq<char>) -> Seq<char> {
    match assoc_get(root, "env"@) {
        Some(cur) => match cur {
            ConfigModel::Table(env) => match assoc_get(env, key) {
                Some(v) => match v {
                    ConfigModel::Str(s) => s,
                    _ => Seq::empty(),
                },
                None => Seq::empty(),
            },
            _ => Seq::empty(),
        },
        None => Seq::empty(),
    }
}

/// As `env_text_entry`, but absence is reported rather than read as
/// an empty text.
pub open spec fn env_opt_entry(root: TableModel, key: Seq<char>) -> Option<Seq<char>> {
    match assoc_get(root, "env"@) {
        Some(cur) => match cur {
            ConfigModel::Table(env) => match assoc_get(env, key) {
                Some(v) => match v {
                    ConfigModel::Str(s) => Some(s),
                    _ => None,
                },
                None => None,
            },
            _ => None,
        },
        None => None,
    }
}

/// The profile a settings document describes: its credential fields,
/// under a fixed display name, or nothing when both credential fields
/// are empty or missing.
pub open spec fn read_alpha(root: TableModel) -> Option<VendorInputModel> {
    let token = env_text_entry(root, "ANTHROPIC_AUTH_TOKEN"@);
    let base_url = env_text_entry(root, "ANTHROPIC_BASE_URL"@);
    if token.len() == 0 && base_url.len() == 0 {
        None
    } else {
        Some(
            VendorInputModel {
                name: "Imported configuration"@,
                vendor_key: None,
                base_url,
                token,
                model: env_opt_entry(root, "ANTHROPIC_MODEL"@),
                config_json: None,
            },
        )
    }
}

/// Reads `key` from the document's `env` table as `env_text_entry`
/// describes it.
fn env_string(d: &Vec<(String, ConfigValue)>, key: &str) -> (r: String)
    ensures
        r@ == env_text_entry(entries_view(d@), key@),
{
    match table_get(d, "env") {
        Some(cur) => match cur {
            ConfigValue::Table(env) => match table_get(env, key) {
                Some(v) => match v {
                    ConfigValue::Str(s) => s.clone(),
                    _ => String::new(),
                },
                None => String::new(),
            },
            _ => String::new(),
        },
        None => String::new(),
    }
}

/// Reads `key` from the document's `env` table as `env_opt_entry`
/// describes it.
fn env_string_opt(d: &Vec<(String, ConfigValue)>, key: &str) -> (r: Option<String>)
    ensures
        opt_string_view(r) == env_opt_entry(entries_view(d@), key@),
{
    match table_get(d, "env") {
        Some(cur) => match cur {
            ConfigValue::Table(env) => match table_get(env, key) {
                Some(v) => match v {
                    ConfigValue::Str(s) => Some(s.clone()),
                    _ => None,
                },
                None => None,
            },
            _ => None,
        },
        None => None,
    }
}

/// The profile described by the active settings document, if any: the
/// inverse direction of the merge, used to seed an empty profile store
/// from a configuration already on disk. A missing or unparseable
/// document is handed in as `None` and describes no profile.
pub fn read_alpha_settings(doc: Option<&Vec<(String, ConfigValue)>>) -> (r: Option<VendorInput>)
    ensures
        match doc {
            Some(d) => opt_input_view(r) == read_alpha(entries_view(d@)),
            None => r is None,
        },
{
    match doc {
        None => None,
        Some(d) => {
            let token = env_string(d, "ANTHROPIC_AUTH_TOKEN");
            let base_url = env_string(d, "ANTHROPIC_BASE_URL");
            if token.as_str().is_empty() && base_url.as_str().is_empty() {
                None
            } else {
                let model = env_string_opt(d, "ANTHROPIC_MODEL");
                Some(
                    VendorInput {
                        name: "Imported configuration".to_owned(),
                        vendor_key: None,
                        base_url,
                        token,
                        model,
                        config_json: None,
                    },
                )
            }
        },
    }
}

/// The key literals the merges write, pinned down so that their
/// pairwise distinctness is available to the proofs below.
proof fn lemma_merge_keys_distinct()
    ensures
        "env"@ != "ANTHROPIC_AUTH_TOKEN"@,
        "ANTHROPIC_AUTH_TOKEN"@ != "ANTHROPIC_BASE_URL"@,
        "ANTHROPIC_AUTH_TOKEN"@ != "ALPHA_CODE_DISABLE_NONESSENTIAL_TRAFFIC"@,
        "ANTHROPIC_AUTH_TOKEN"@ != "ANTHROPIC_DEFAULT_SONNET_MODEL"@,
        "ANTHROPIC_AUTH_TOKEN"@ != "ANTHROPIC_DEFAULT_HAIKU_MODEL"@,
        "ANTHROPIC_AUTH_TOKEN"@ != "ANTHROPIC_DEFAULT_OPUS_MODEL"@,
        "ANTHROPIC_AUTH_TOKEN"@ != "ANTHROPIC_MODEL"@,
        "ANTHROPIC_BASE_URL"@ != "ALPHA_CODE_DISABLE_NONESSENTIAL_TRAFFIC"@,
        "ANTHROPIC_BASE_URL"@ != "ANTHROPIC_DEFAULT_SONNET_MODEL"@,
        "ANTHROPIC_BASE_URL"@ != "ANTHROPIC_DEFAULT_HAIKU_MODEL"@,
        "ANTHROPIC_BASE_URL"@ != "ANTHROPIC_DEFAULT_OPUS_MODEL"@,
        "ANTHROPIC_BASE_URL"@ != "ANTHROPIC_MODEL"@,
        "ALPHA_CODE_DISABLE_NONESSENTIAL_TRAFFIC"@ != "ANTHROPIC_DEFAULT_SONNET_MODEL"@,
        "ALPHA_CODE_DISABLE_NONESSENTIAL_TRAFFIC"@ != "ANTHROPIC_DEFAULT_HAIKU_MODEL"@,
        "ALPHA_CODE_DISABLE_NONESSENTIAL_TRAFFIC"@ != "ANTHROPIC_DEFAULT_OPUS_MODEL"@,
        "ALPHA_CODE_DISABLE_NONESSENTIAL_TRAFFIC"@ != "ANTHROPIC_MODEL"@,
        "ANTHROPIC_DEFAULT_SONNET_MODEL"@ != "ANTHROPIC_DEFAULT_HAIKU_MODEL"@,
        "ANTHROPIC_DEFAULT_SONNET_MODEL"@ != "ANTHROPIC_DEFAULT_OPUS_MODEL"@,
        "ANTHROPIC_DEFAULT_SONNET_MODEL"@ != "ANTHROPIC_MODEL"@,
        "ANTHROPIC_DEFAULT_HAIKU_MODEL"@ != "ANTHROPIC_DEFAULT_OPUS_MODEL"@,
        "ANTHROPIC_DEFAULT_HAIKU_MODEL"@ != "ANTHROPIC_MODEL"@,
        "ANTHROPIC_DEFAULT_OPUS_MODEL"@ != "ANTHROPIC_MODEL"@,
        "model_provider"@ != "model"@,
        "model_provider"@ != "model_reasoning_effort"@,
        "model_provider"@ != "disable_response_storage"@,
        "model_provider"@ != "model_providers"@,
        "model"@ != "model_reasoning_effort"@,
        "model"@ != "disable_response_storage"@,
        "model"@ != "model_providers"@,
        "model_reasoning_effort"@ != "disable_response_storage"@,
        "model_reasoning_effort"@ != "model_providers"@,
        "disable_response_storage"@ != "model_providers"@,
{
    broadcast use vstd::string::group_string_axioms;

    reveal_strlit("env");
    reveal_strlit("ANTHROPIC_AUTH_TOKEN");
    reveal_strlit("ANTHROPIC_BASE_URL");
    reveal_strlit("ALPHA_CODE_DISABLE_NONESSENTIAL_TRAFFIC");
    reveal_strlit("ANTHROPIC_DEFAULT_SONNET_MODEL");
    reveal_strlit("ANTHROPIC_DEFAULT_HAIKU_MODEL");
    reveal_strlit("ANTHROPIC_DEFAULT_OPUS_MODEL");
    reveal_strlit("ANTHROPIC_MODEL");
    reveal_strlit("model_provider");
    reveal_strlit("model");
    reveal_strlit("model_reasoning_effort");
    reveal_strlit("disable_response_storage");
    reveal_strlit("model_providers");
    assert("env"@.len() == 3);
    assert("ANTHROPIC_AUTH_TOKEN"@.len() == 20);
    assert("ANTHROPIC_BASE_URL"@.len() == 18);
    assert("ALPHA_CODE_DISABLE_NONESSENTIAL_TRAFFIC"@.len() == 39);
    assert("ANTHROPIC_DEFAULT_SONNET_MODEL"@.len() == 30);
    assert("ANTHROPIC_DEFAULT_HAIKU_MODEL"@.len() == 29);
    assert("ANTHROPIC_DEFAULT_OPUS_MODEL"@.len() == 28);
    assert("ANTHROPIC_MODEL"@.len() == 15);
    assert("model_provider"@.len() == 14);
    assert("model"@.len() == 5);
    assert("model_reasoning_effort"@.len() == 22);
    assert("disable_response_storage"@.len() == 24);
    assert("model_providers"@.len() == 15);
}

/// The settings merge is non-destructive: every entry of the document
/// other than `env` keeps its value.
pub proof fn lemma_alpha_merge_preserves(root: TableModel, v: VendorModel, k: Seq<char>)
    requires
        k != "env"@,
    ensures
        assoc_get(alpha_merge(root, v), k) == assoc_get(root, k),
{
    broadcast use crate::assoc::lemma_assoc_get_set_other;

}

/// The settings merge is non-destructive inside `env` too: an entry of
/// an existing `env` table under none of the written keys keeps its
/// value in the merged `env` table.
pub proof fn lemma_alpha_env_preserves(env: TableModel, v: VendorModel, k: Seq<char>)
    requires
        k != "ANTHROPIC_AUTH_TOKEN"@,
        k != "ANTHROPIC_BASE_URL"@,
        k != "ALPHA_CODE_DISABLE_NONESSENTIAL_TRAFFIC"@,
        k != "ANTHROPIC_DEFAULT_SONNET_MODEL"@,
        k != "ANTHROPIC_DEFAULT_HAIKU_MODEL"@,
        k != "ANTHROPIC_DEFAULT_OPUS_MODEL"@,
        k != "ANTHROPIC_MODEL"@,
    ensures
        assoc_get(alpha_env_updates(env, v), k) == assoc_get(env, k),
{
    broadcast use crate::assoc::lemma_assoc_get_set_other;

}

/// The settings merge is idempotent: merging the same profile a second
/// time leaves the merged document exactly as it was.
pub proof fn lemma_alpha_merge_idempotent(root: TableModel, v: VendorModel)
    ensures
        alpha_merge(alpha_merge(root, v), v) == alpha_merge(root, v),
{
    broadcast use crate::assoc::lemma_assoc_get_set_same, crate::assoc::lemma_assoc_get_set_other, crate::assoc::lemma_assoc_set_noop;

    lemma_merge_keys_distinct();
}

/// The configuration merge is non-destructive: every entry of the
/// document other than the four selection keys and the provider table
/// keeps its value, and within the provider table every entry under
/// another provider key keeps its value.
pub proof fn lemma_codex_merge_preserves(root: TableModel, v: VendorModel, k: Seq<char>)
    requires
        k != "model_provider"@,
        k != "model"@,
        k != "model_reasoning_effort"@,
        k != "disable_response_storage"@,
        k != "model_providers"@,
    ensures
        assoc_get(codex_merge(root, v), k) == assoc_get(root, k),
{
    broadcast use crate::assoc::lemma_assoc_get_set_other;

}

/// Within the provider table, the configuration merge touches only the
/// profile's own provider key.
pub proof fn lemma_codex_providers_preserve(root: TableModel, v: VendorModel, k: Seq<char>)
    requires
        k != codex_provider_key(v),
        assoc_get(root, "model_providers"@) matches Some(cur) && cur is Table,
    ensures
        assoc_get(codex_merge(root, v), "model_providers"@) matches Some(m) && m is Table
            && assoc_get(m->Table_0, k) == assoc_get(
            assoc_get(root, "model_providers"@)->0->Table_0,
            k,
        ),
{
    broadcast use crate::assoc::lemma_assoc_get_set_same, crate::assoc::lemma_assoc_get_set_other;

    lemma_merge_keys_distinct();
}

/// The configuration merge is idempotent: merging the same profile a
/// second time leaves the merged document exactly as it was.
pub proof fn lemma_codex_merge_idempotent(root: TableModel, v: VendorModel)
    ensures
        codex_merge(codex_merge(root, v), v) == codex_merge(root, v),
{
    broadcast use crate::assoc::lemma_assoc_get_set_same, crate::assoc::lemma_assoc_get_set_other, crate::assoc::lemma_assoc_set_noop;

    lemma_merge_keys_distinct();
}

/// What activation writes, the importer reads back: merging a profile
/// with a credential into a settings document whose `env` entry, if
/// any, is a table leaves a document that describes a profile with
/// exactly that token and base URL.
pub proof fn lemma_merge_read_round_trip(root: TableModel, v: VendorModel)
    requires
        v.token.len() > 0 || v.base_url.len() > 0,
        match assoc_get(root, "env"@) {
            Some(cur) => cur is Table,
            None => true,
        },
    ensures
        read_alpha(alpha_merge(root, v)) matches Some(m) && m.token == v.token && m.base_url
            == v.base_url,
{
    broadcast use crate::assoc::lemma_assoc_get_set_same, crate::assoc::lemma_assoc_get_set_other;

    lemma_merge_keys_distinct();
}

/// A malformed extra-options text changes nothing: the merges treat a
/// profile whose extra-options text does not parse as JSON exactly as
/// one without extra options.
pub proof fn lemma_malformed_extra_options_ignored(root: TableModel, v: VendorModel)
    requires
        v.config_json matches Some(s) && json_top_strings(s) is None,
    ensures
        alpha_merge(root, v) == alpha_merge(root, VendorModel { config_json: None, ..v }),
        codex_merge(root, v) == codex_merge(root, VendorModel { config_json: None, ..v }),
{
}

} // verus!
