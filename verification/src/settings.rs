//! Settings the front end changes: the API's address and the interface language, and
//! the deep links that install mods.
use vstd::prelude::*;

use crate::active_map::{entries_map, find_key, has_key, keys_distinct, lemma_push, lemma_update};
use crate::error::Error;
use crate::text::{concat, join, seq_join, seq_starts_with, starts_with, str_eq, views};

verus! {

/// The API address used until another is set.
pub open spec fn default_api_url() -> Seq<char> {
    "http://localhost:9000"@
}

/// Whether an address may be used as the API's: it begins with `http://` or `https://`.
pub open spec fn is_api_url(url: Seq<char>) -> bool {
    seq_starts_with(url, "http://"@) || seq_starts_with(url, "https://"@)
}

/// The API address the application starts with.
pub fn default_api_url_string() -> (r: String)
    ensures
        r@ == default_api_url(),
{
    "http://localhost:9000".to_owned()
}

/// The address stored after an attempt to set `attempt` over `stored`: the attempt
/// when it is an `http://` or `https://` address, otherwise what was stored.
pub open spec fn stored_after_set(stored: Seq<char>, attempt: Seq<char>) -> Seq<char> {
    if is_api_url(attempt) {
        attempt
    } else {
        stored
    }
}

/// The address stored after the attempts `attempts`, one after the other.
pub open spec fn stored_after_sets(stored: Seq<char>, attempts: Seq<Seq<char>>) -> Seq<char>
    decreases attempts.len(),
{
    if attempts.len() == 0 {
        stored
    } else {
        stored_after_set(stored_after_sets(stored, attempts.drop_last()), attempts.last())
    }
}

/// The API address in use. It is always an `http://` or `https://` address.
pub struct ApiUrl {
    url: String,
}

impl ApiUrl {
    /// The address is always an `http://` or `https://` address.
    #[verifier::type_invariant]
    spec fn is_valid(self) -> bool {
        is_api_url(self.url@)
    }

    /// The address the application starts with.
    pub fn new() -> (r: Self)
        ensures
            r@ == default_api_url(),
    {
        let url = default_api_url_string();
        proof {
            reveal_strlit("http://localhost:9000");
            reveal_strlit("http://");
            assert(url@.subrange(0, 7) =~= "http://"@);
        }
        ApiUrl { url }
    }
}

impl View for ApiUrl {
    type V = Seq<char>;

    closed spec fn view(&self) -> Seq<char> {
        self.url@
    }
}

/// Replaces the API address `current` with `api_url`, which must begin with
/// `http://` or `https://`; a refused address leaves `current` as it was.
pub fn set_api_url(current: &mut ApiUrl, api_url: String) -> (r: Result<(), Error>)
    ensures
        is_api_url(api_url@) <==> r is Ok,
        final(current)@ == stored_after_set(old(current)@, api_url@),
        r matches Err(e) ==> e matches Error::InvalidInput(m) && m@
            == "API URL must start with http:// or https://"@,
{
    if !starts_with(api_url.as_str(), "http://") && !starts_with(api_url.as_str(), "https://") {
        return Err(Error::InvalidInput("API URL must start with http:// or https://".to_owned()));
    }
    current.url = api_url;
    Ok(())
}

/// The error when the stored API address cannot be replaced because its lock is lost.
pub fn api_url_lock_error() -> (r: Error)
    ensures
        r matches Error::InvalidInput(m) && m@ == "Failed to acquire API URL lock"@,
{
    Error::InvalidInput("Failed to acquire API URL lock".to_owned())
}

/// The API address: the stored one, or the default when it cannot be read. Either
/// way it begins with `http://` or `https://`.
pub fn get_api_url(current: Option<&ApiUrl>) -> (r: String)
    ensures
        match current {
            Some(u) => r@ == u@,
            None => r@ == default_api_url(),
        },
        is_api_url(r@),
{
    match current {
        Some(u) => {
            proof {
                use_type_invariant(u);
            }
            u.url.clone()
        },
        None => {
            let d = ApiUrl::new();
            proof {
                use_type_invariant(&d);
            }
            d.url
        },
    }
}

/// The interface languages the application offers.
pub open spec fn supported_languages() -> Seq<Seq<char>> {
    seq![
        "en"@,
        "de"@,
        "fr"@,
        "ar"@,
        "pl"@,
        "gsw"@,
        "th"@,
        "tr"@,
        "ru"@,
        "zh-CN"@,
        "zh-TW"@,
        "es"@,
        "pt-BR"@,
        "it"@,
        "ja"@,
    ]
}

/// Checks that `language` is offered; the front end is then told to switch to it.
pub fn set_language(language: &str) -> (r: Result<(), Error>)
    ensures
        supported_languages().contains(language@) <==> r is Ok,
        r matches Err(e) ==> e matches Error::InvalidInput(m) && m@ == "Unsupported language: "@
            + language@,
{
    let supported: [&str; 15] = [
        "en",
        "de",
        "fr",
        "ar",
        "pl",
        "gsw",
        "th",
        "tr",
        "ru",
        "zh-CN",
        "zh-TW",
        "es",
        "pt-BR",
        "it",
        "ja",
    ];
    let ghost sv = supported@.map_values(|s: &str| s@);
    assert(sv =~= supported_languages());
    let mut i: usize = 0;
    while i < 15
        invariant
            i <= 15,
            supported@.map_values(|s: &str| s@) == supported_languages(),
            forall|k: int| 0 <= k < i ==> supported_languages()[k] != language@,
        decreases 15 - i,
    {
        if str_eq(supported[i], language) {
            assert(supported_languages()[i as int] == language@);
            return Ok(());
        }
        i = i + 1;
    }
    Err(Error::InvalidInput(concat("Unsupported language: ", language)))
}

/// A parsed deep link that installs a mod.
#[derive(Clone, Debug)]
pub struct DeepLinkData {
    pub download_url: String,
    pub mod_type: String,
    pub mod_id: String,
}

/// The message of a link in none of the registered schemes.
pub open spec fn bad_scheme_message(schemes: Seq<Seq<char>>) -> Seq<char> {
    "Invalid deep link format. Expected schemes: "@ + seq_join(schemes, ", "@)
}

/// The message of a link whose data is not three comma-separated parts.
pub open spec fn bad_parts_message() -> Seq<char> {
    "Invalid mod installation deep link format. Must contain 3 comma-separated parts: download_url,mod_type,mod_id"@
}

/// The data of a mod deep link. `data_part` is the link without its scheme, or none
/// when the link is in no registered scheme; `parts` are its three parts, or none when
/// they are not three valid comma-separated parts.
pub fn parse_deep_link(
    data_part: Option<String>,
    scheme_names: &Vec<String>,
    parts: Option<(String, String, String)>,
) -> (r: Result<DeepLinkData, Error>)
    ensures
        match data_part {
            None => r matches Err(e) && e matches Error::InvalidInput(m) && m@ == bad_scheme_message(
                views(scheme_names@),
            ),
            Some(_) => match parts {
                None => r matches Err(e) && e matches Error::InvalidInput(m) && m@
                    == bad_parts_message(),
                Some((u, t, i)) => r matches Ok(d) && d.download_url == u && d.mod_type == t
                    && d.mod_id == i,
            },
        },
{
    match data_part {
        None => {
            let names = join(scheme_names, ", ");
            Err(Error::InvalidInput(concat("Invalid deep link format. Expected schemes: ", names.as_str())))
        },
        Some(_) => match parts {
            None => Err(
                Error::InvalidInput(
                    "Invalid mod installation deep link format. Must contain 3 comma-separated parts: download_url,mod_type,mod_id".to_owned(),
                ),
            ),
            Some((download_url, mod_type, mod_id)) => Ok(DeepLinkData { download_url, mod_type, mod_id }),
        },
    }
}

/// What the registry said of one scheme.
#[derive(Clone, Debug, PartialEq, Eq)]
pub enum RegistryQuery {
    /// The scheme is registered.
    Registered,
    /// The query ran and found no registration.
    NotFound,
    /// The query could not run; holds the failure's message.
    Failed(String),
    /// There is no registry to ask (not Windows).
    NotWindows,
}

/// The status text of a registry answer.
pub open spec fn registry_status_text(q: RegistryQuery) -> Seq<char> {
    match q {
        RegistryQuery::Registered => "REGISTERED"@,
        RegistryQuery::NotFound => "NOT_FOUND"@,
        RegistryQuery::Failed(m) => "ERROR: "@ + m@,
        RegistryQuery::NotWindows => "N/A (non-Windows)"@,
    }
}

/// The status text of a registry answer.
pub fn registry_status(q: &RegistryQuery) -> (r: String)
    ensures
        r@ == registry_status_text(*q),
{
    match q {
        RegistryQuery::Registered => "REGISTERED".to_owned(),
        RegistryQuery::NotFound => "NOT_FOUND".to_owned(),
        RegistryQuery::Failed(m) => concat("ERROR: ", m.as_str()),
        RegistryQuery::NotWindows => "N/A (non-Windows)".to_owned(),
    }
}

/// The status of each scheme, a later answer for the same scheme replacing an earlier.
pub open spec fn registry_map(schemes: Seq<Seq<char>>, answers: Seq<RegistryQuery>) -> Map<
    Seq<char>,
    Seq<char>,
>
    decreases schemes.len(),
{
    if schemes.len() == 0 || answers.len() == 0 {
        Map::empty()
    } else {
        registry_map(schemes.drop_last(), answers.drop_last()).insert(
            schemes.last(),
            registry_status_text(answers.last()),
        )
    }
}

/// The views of status entries.
pub open spec fn status_entries_view(es: Seq<(String, String)>) -> Map<Seq<char>, Seq<char>> {
    entries_map(es).map_values(|v: String| v@)
}

/// The registry status of each registered scheme, one entry per scheme, from the
/// answers given for the schemes in order.
pub fn registry_status_entries(schemes: &Vec<String>, answers: &Vec<RegistryQuery>) -> (r: Vec<(String, String)>)
    requires
        schemes@.len() == answers@.len(),
    ensures
        keys_distinct(r@),
        status_entries_view(r@) == registry_map(views(schemes@), answers@),
{
    let mut out: Vec<(String, String)> = Vec::new();
    let mut i: usize = 0;
    assert(status_entries_view(out@) =~= Map::<Seq<char>, Seq<char>>::empty());
    assert(views(schemes@).take(0) =~= Seq::<Seq<char>>::empty());
    while i < schemes.len()
        invariant
            schemes@.len() == answers@.len(),
            i <= schemes@.len(),
            keys_distinct(out@),
            status_entries_view(out@) == registry_map(views(schemes@).take(i as int), answers@.take(i as int)),
        decreases schemes@.len() - i,
    {
        let status = registry_status(&answers[i]);
        let key = schemes[i].clone();
        let ghost st = status;
        let ghost before = out@;
        proof {
            let vs = views(schemes@).take(i + 1);
            let an = answers@.take(i + 1);
            assert(vs.drop_last() =~= views(schemes@).take(i as int));
            assert(an.drop_last() =~= answers@.take(i as int));
            assert(vs.last() == schemes@[i as int]@);
            assert(an.last() == answers@[i as int]);
        }
        match find_key(&out, key.as_str()) {
            Some(j) => {
                proof {
                    lemma_update(before, j as int, (key, st));
                }
                out.set(j, (key, status));
                assert(status_entries_view(out@) =~= status_entries_view(before).insert(key@, st@));
            },
            None => {
                proof {
                    lemma_push(before, (key, st));
                }
                out.push((key, status));
                assert(status_entries_view(out@) =~= status_entries_view(before).insert(key@, st@));
            },
        }
        i = i + 1;
    }
    assert(views(schemes@).take(schemes@.len() as int) =~= views(schemes@));
    assert(answers@.take(answers@.len() as int) =~= answers@);
    out
}

/// What the application knows of its deep-link registration.
#[derive(Clone, Debug)]
pub struct DeepLinkDebugInfo {
    pub debug_mode: bool,
    pub target_os: String,
    pub registered_schemes: Vec<String>,
    pub registry_status: Vec<(String, String)>,
}

} // verus!
