//! The signature composer: the signing string of a request under a
//! compatibility profile, and the `Signature` header that carries the
//! signature made over it.
use vstd::prelude::*;
use crate::headers::{find_header, header_value, header_views, Header, HeaderView};
use crate::text::{join, lowercase, same_ignoring_case};

verus! {

/// The request methods that the delivery client uses.
#[derive(Debug, Clone, Copy, PartialEq, Eq, Structural)]
pub enum Method {
    Get,
    Post,
}

impl Method {
    /// The method as it stands in a signing string: in lower case.
    pub open spec fn token(self) -> Seq<char> {
        match self {
            Method::Get => "get"@,
            Method::Post => "post"@,
        }
    }

    /// The method as it goes on the request line: in upper case.
    pub open spec fn name(self) -> Seq<char> {
        match self {
            Method::Get => "GET"@,
            Method::Post => "POST"@,
        }
    }

    /// The lower-case spelling used in a signing string.
    pub fn as_token(&self) -> (token: &'static str)
        ensures
            token@ == self.token(),
    {
        match self {
            Method::Get => "get",
            Method::Post => "post",
        }
    }

    /// The upper-case spelling used on the request line.
    pub fn as_name(&self) -> (name: &'static str)
        ensures
            name@ == self.name(),
    {
        match self {
            Method::Get => "GET",
            Method::Post => "POST",
        }
    }
}

/// Which parts of a request a signature covers, in which order, and the
/// algorithm name that the `Signature` header announces.
#[derive(Debug)]
pub struct Profile {
    pub algorithm: String,
    pub covered: Vec<String>,
}

/// The mathematical value of a [`Profile`].
pub struct ProfileView {
    pub algorithm: Seq<char>,
    pub covered: Seq<Seq<char>>,
}

impl View for Profile {
    type V = ProfileView;

    open spec fn view(&self) -> ProfileView {
        ProfileView {
            algorithm: self.algorithm@,
            covered: Seq::new(self.covered@.len(), |i: int| self.covered@[i]@),
        }
    }
}

/// The name of the pseudo-header that stands for method and path.
pub open spec fn request_target_name() -> Seq<char> {
    "(request-target)"@
}

/// The profile that Mastodon-compatible servers verify: RSA-SHA256 over the
/// request target and the `host`, `date` and `digest` headers, in this
/// order.
pub open spec fn mastodon_profile() -> ProfileView {
    ProfileView {
        algorithm: "rsa-sha256"@,
        covered: seq![request_target_name(), "host"@, "date"@, "digest"@],
    }
}

impl Profile {
    /// The Mastodon-compatible profile.
    pub fn mastodon_compat() -> (profile: Profile)
        ensures
            profile@ == mastodon_profile(),
    {
        let mut covered: Vec<String> = Vec::new();
        covered.push(String::from_str("(request-target)"));
        covered.push(String::from_str("host"));
        covered.push(String::from_str("date"));
        covered.push(String::from_str("digest"));
        let profile = Profile { algorithm: String::from_str("rsa-sha256"), covered };
        assert(profile@.covered =~= mastodon_profile().covered);
        profile
    }
}

/// The value that a covered component contributes: method and path for
/// the request target, else the value of the header of that name.
pub open spec fn covered_value(
    component: Seq<char>,
    method: Method,
    path: Seq<char>,
    headers: Seq<HeaderView>,
) -> Option<Seq<char>> {
    if same_ignoring_case(component, request_target_name()) {
        Some(method.token() + seq![' '] + path)
    } else {
        header_value(headers, component)
    }
}

/// One line of a signing string: the name in lower case, a colon, a space,
/// and the value.
pub open spec fn signing_line(component: Seq<char>, value: Seq<char>) -> Seq<char> {
    lowercase(component) + seq![':', ' '] + value
}

/// The lines of the signing string, one for each covered component in
/// order; or, where the request lacks one of them, the name of the first
/// that it lacks.
pub open spec fn signing_lines(
    covered: Seq<Seq<char>>,
    method: Method,
    path: Seq<char>,
    headers: Seq<HeaderView>,
) -> Result<Seq<Seq<char>>, Seq<char>>
    decreases covered.len(),
{
    if covered.len() == 0 {
        Ok(Seq::empty())
    } else {
        match signing_lines(covered.drop_last(), method, path, headers) {
            Err(missing) => Err(missing),
            Ok(lines) => match covered_value(covered.last(), method, path, headers) {
                Some(value) => Ok(lines.push(signing_line(covered.last(), value))),
                None => Err(covered.last()),
            },
        }
    }
}

/// The signing string: the lines joined by a line feed.
pub open spec fn signing_string_of(
    covered: Seq<Seq<char>>,
    method: Method,
    path: Seq<char>,
    headers: Seq<HeaderView>,
) -> Result<Seq<char>, Seq<char>> {
    match signing_lines(covered, method, path, headers) {
        Ok(lines) => Ok(join(lines, seq!['\n'])),
        Err(missing) => Err(missing),
    }
}

/// The names of the covered components as the `Signature` header lists
/// them: in lower case, separated by single spaces.
pub open spec fn covered_list(covered: Seq<Seq<char>>) -> Seq<char> {
    join(Seq::new(covered.len(), |i: int| lowercase(covered[i])), seq![' '])
}

/// The value of the `Signature` header.
pub open spec fn signature_header_of(
    key_id: Seq<char>,
    profile: ProfileView,
    signature: Seq<char>,
) -> Seq<char> {
    "keyId=\""@ + key_id + "\",algorithm=\""@ + profile.algorithm + "\",headers=\""@
        + covered_list(profile.covered) + "\",signature=\""@ + signature + "\""@
}

/// A signing string could not be composed.
#[derive(Debug)]
pub enum ComposeError {
    /// The profile covers a header that the request does not have.
    MissingHeader(String),
}

/// A failure at the start of the covered components stays the failure of
/// the whole list.
proof fn lemma_missing_in_prefix(
    covered: Seq<Seq<char>>,
    method: Method,
    path: Seq<char>,
    headers: Seq<HeaderView>,
    k: int,
)
    requires
        0 <= k <= covered.len(),
        signing_lines(covered.take(k), method, path, headers) is Err,
    ensures
        signing_lines(covered, method, path, headers) == signing_lines(
            covered.take(k),
            method,
            path,
            headers,
        ),
    decreases covered.len() - k,
{
    if k == covered.len() {
        assert(covered.take(k) =~= covered);
    } else {
        assert(covered.take(k + 1).drop_last() =~= covered.take(k));
        lemma_missing_in_prefix(covered, method, path, headers, k + 1);
    }
}

/// Composes the signing string of a request under `profile`.
///
/// Fails exactly when the profile covers a header that `headers` lacks,
/// and then names the first such header.
pub fn signing_string(profile: &Profile, method: Method, path: &str, headers: &Vec<Header>) -> (text:
    Result<String, ComposeError>)
    ensures
        match text {
            Ok(s) => signing_string_of(profile@.covered, method, path@, header_views(headers@))
                == Ok::<Seq<char>, Seq<char>>(s@),
            Err(ComposeError::MissingHeader(name)) => signing_string_of(
                profile@.covered,
                method,
                path@,
                header_views(headers@),
            ) == Err::<Seq<char>, Seq<char>>(name@),
        },
{
    let ghost covered = profile@.covered;
    let ghost all = header_views(headers@);
    let ghost mut lines: Seq<Seq<char>> = Seq::empty();
    let mut text: String = String::new();
    let mut i: usize = 0;
    while i < profile.covered.len()
        invariant
            i <= profile.covered.len(),
            covered == profile@.covered,
            covered.len() == profile.covered.len(),
            all == header_views(headers@),
            signing_lines(covered.take(i as int), method, path@, all) == Ok::<
                Seq<Seq<char>>,
                Seq<char>,
            >(lines),
            lines.len() == i,
            text@ == join(lines, seq!['\n']),
        decreases profile.covered.len() - i,
    {
        proof {
            reveal_strlit(" ");
            reveal_strlit(": ");
            reveal_strlit("\n");
        }
        let component: &str = profile.covered[i].as_str();
        assert(component@ == covered[i as int]);
        assert(covered.take(i + 1).drop_last() =~= covered.take(i as int));
        assert(covered.take(i + 1).last() == covered[i as int]);
        let value: String = if component.eq_ignore_ascii_case("(request-target)") {
            let mut target: String = String::from_str(method.as_token());
            target.append(" ");
            target.append(path);
            assert(target@ =~= method.token() + seq![' '] + path@);
            target
        } else {
            match find_header(headers, component) {
                Some(found) => String::from_str(found),
                None => {
                    proof {
                        lemma_missing_in_prefix(covered, method, path@, all, i + 1);
                    }
                    return Err(ComposeError::MissingHeader(String::from_str(component)));
                },
            }
        };
        assert(covered_value(component@, method, path@, all) == Some(value@));
        let mut line: String = component.to_ascii_lowercase();
        line.append(": ");
        line.append(value.as_str());
        assert(line@ =~= signing_line(component@, value@));
        if i > 0 {
            text.append("\n");
        }
        text.append(line.as_str());
        proof {
            let longer = lines.push(line@);
            assert(longer.drop_last() =~= lines);
            assert(text@ =~= join(longer, seq!['\n']));
            lines = longer;
        }
        i = i + 1;
    }
    assert(covered.take(i as int) =~= covered);
    Ok(text)
}

/// Writes the `Signature` header value that carries `signature` for the
/// key `key_id` under `profile`.
pub fn signature_header(key_id: &str, profile: &Profile, signature: &str) -> (value: String)
    ensures
        value@ == signature_header_of(key_id@, profile@, signature@),
{
    let ghost covered = profile@.covered;
    let ghost mut names: Seq<Seq<char>> = Seq::empty();
    let mut list: String = String::new();
    let mut i: usize = 0;
    while i < profile.covered.len()
        invariant
            i <= profile.covered.len(),
            covered == profile@.covered,
            covered.len() == profile.covered.len(),
            names == Seq::new(i as nat, |j: int| lowercase(covered[j])),
            list@ == join(names, seq![' ']),
        decreases profile.covered.len() - i,
    {
        proof {
            reveal_strlit(" ");
        }
        let lower: String = profile.covered[i].as_str().to_ascii_lowercase();
        if i > 0 {
            list.append(" ");
        }
        list.append(lower.as_str());
        proof {
            let longer = Seq::new((i + 1) as nat, |j: int| lowercase(covered[j]));
            assert(longer.drop_last() =~= names);
            assert(longer.last() == lower@);
            assert(list@ =~= join(longer, seq![' ']));
            names = longer;
        }
        i = i + 1;
    }
    assert(names =~= Seq::new(covered.len(), |j: int| lowercase(covered[j])));
    let mut value: String = String::from_str("keyId=\"");
    value.append(key_id);
    value.append("\",algorithm=\"");
    value.append(profile.algorithm.as_str());
    value.append("\",headers=\"");
    value.append(list.as_str());
    value.append("\",signature=\"");
    value.append(signature);
    value.append("\"");
    assert(value@ =~= signature_header_of(key_id@, profile@, signature@));
    value
}

/// The signing string of the Mastodon-compatible profile, written out:
/// four lines for request target, host, date and digest.
pub open spec fn mastodon_signing_string(
    method: Method,
    path: Seq<char>,
    host: Seq<char>,
    date: Seq<char>,
    digest: Seq<char>,
) -> Seq<char> {
    "(request-target): "@ + method.token() + seq![' '] + path + "\nhost: "@ + host + "\ndate: "@
        + date + "\ndigest: "@ + digest
}

/// The list of covered components that the Mastodon-compatible profile
/// announces.
pub open spec fn mastodon_covered_list() -> Seq<char> {
    "(request-target) host date digest"@
}

/// A name without upper-case ASCII letters is its own lower-case form.
pub proof fn lemma_lowercase_fixed(name: Seq<char>)
    requires
        forall|i: int| 0 <= i < name.len() ==> !('A' <= #[trigger] name[i] && name[i] <= 'Z'),
    ensures
        lowercase(name) == name,
{
    assert(lowercase(name) =~= name);
}

/// The four names that the Mastodon-compatible profile covers are in lower
/// case already, and only the first is the request target.
pub proof fn lemma_mastodon_names()
    ensures
        lowercase(request_target_name()) == request_target_name(),
        lowercase("host"@) == "host"@,
        lowercase("date"@) == "date"@,
        lowercase("digest"@) == "digest"@,
        !same_ignoring_case("host"@, request_target_name()),
        !same_ignoring_case("date"@, request_target_name()),
        !same_ignoring_case("digest"@, request_target_name()),
{
    reveal_strlit("(request-target)");
    reveal_strlit("host");
    reveal_strlit("date");
    reveal_strlit("digest");
    lemma_lowercase_fixed(request_target_name());
    lemma_lowercase_fixed("host"@);
    lemma_lowercase_fixed("date"@);
    lemma_lowercase_fixed("digest"@);
    assert(request_target_name().len() == 16);
}

/// Under the Mastodon-compatible profile, a request that has the three
/// covered headers has exactly the four-line signing string, whatever
/// other headers it carries.
pub proof fn lemma_mastodon_signing_string(
    method: Method,
    path: Seq<char>,
    headers: Seq<HeaderView>,
    host: Seq<char>,
    date: Seq<char>,
    digest: Seq<char>,
)
    requires
        header_value(headers, "host"@) == Some(host),
        header_value(headers, "date"@) == Some(date),
        header_value(headers, "digest"@) == Some(digest),
    ensures
        signing_string_of(mastodon_profile().covered, method, path, headers) == Ok::<
            Seq<char>,
            Seq<char>,
        >(mastodon_signing_string(method, path, host, date, digest)),
{
    lemma_mastodon_names();
    reveal_strlit("(request-target): ");
    reveal_strlit("\nhost: ");
    reveal_strlit("\ndate: ");
    reveal_strlit("\ndigest: ");
    reveal_strlit("(request-target)");
    reveal_strlit("host");
    reveal_strlit("date");
    reveal_strlit("digest");
    let c4 = mastodon_profile().covered;
    let c3 = seq![request_target_name(), "host"@, "date"@];
    let c2 = seq![request_target_name(), "host"@];
    let c1 = seq![request_target_name()];
    assert(c4.drop_last() =~= c3);
    assert(c3.drop_last() =~= c2);
    assert(c2.drop_last() =~= c1);
    assert(c1.drop_last() =~= Seq::<Seq<char>>::empty());
    let l1 = signing_line(request_target_name(), method.token() + seq![' '] + path);
    let l2 = signing_line("host"@, host);
    let l3 = signing_line("date"@, date);
    let l4 = signing_line("digest"@, digest);
    assert(signing_lines(c1, method, path, headers) == Ok::<Seq<Seq<char>>, Seq<char>>(seq![l1]))
        by {
        assert(signing_lines(c1.drop_last(), method, path, headers) == Ok::<
            Seq<Seq<char>>,
            Seq<char>,
        >(Seq::empty()));
        assert(Seq::<Seq<char>>::empty().push(l1) =~= seq![l1]);
    }
    assert(signing_lines(c2, method, path, headers) == Ok::<Seq<Seq<char>>, Seq<char>>(
        seq![l1, l2],
    )) by {
        assert(seq![l1].push(l2) =~= seq![l1, l2]);
    }
    assert(signing_lines(c3, method, path, headers) == Ok::<Seq<Seq<char>>, Seq<char>>(
        seq![l1, l2, l3],
    )) by {
        assert(seq![l1, l2].push(l3) =~= seq![l1, l2, l3]);
    }
    assert(signing_lines(c4, method, path, headers) == Ok::<Seq<Seq<char>>, Seq<char>>(
        seq![l1, l2, l3, l4],
    )) by {
        assert(seq![l1, l2, l3].push(l4) =~= seq![l1, l2, l3, l4]);
    }
    let nl = seq!['\n'];
    assert(seq![l1, l2, l3, l4].drop_last() =~= seq![l1, l2, l3]);
    assert(seq![l1, l2, l3].drop_last() =~= seq![l1, l2]);
    assert(seq![l1, l2].drop_last() =~= seq![l1]);
    assert(join(seq![l1], nl) == l1);
    assert(join(seq![l1, l2], nl) == l1 + nl + l2);
    assert(join(seq![l1, l2, l3], nl) == l1 + nl + l2 + nl + l3);
    assert(join(seq![l1, l2, l3, l4], nl) == l1 + nl + l2 + nl + l3 + nl + l4);
    assert(l1 + nl + l2 + nl + l3 + nl + l4 =~= mastodon_signing_string(
        method,
        path,
        host,
        date,
        digest,
    ));
}

/// The Mastodon-compatible profile announces its covered components as
/// `(request-target) host date digest`.
pub proof fn lemma_mastodon_covered_list()
    ensures
        covered_list(mastodon_profile().covered) == mastodon_covered_list(),
{
    lemma_mastodon_names();
    reveal_strlit("(request-target) host date digest");
    reveal_strlit("(request-target)");
    reveal_strlit("host");
    reveal_strlit("date");
    reveal_strlit("digest");
    let covered = mastodon_profile().covered;
    let names = Seq::new(covered.len(), |i: int| lowercase(covered[i]));
    let n4 = seq![request_target_name(), "host"@, "date"@, "digest"@];
    assert(names =~= n4);
    let sp = seq![' '];
    assert(n4.drop_last() =~= seq![request_target_name(), "host"@, "date"@]);
    assert(seq![request_target_name(), "host"@, "date"@].drop_last() =~= seq![
        request_target_name(),
        "host"@,
    ]);
    assert(seq![request_target_name(), "host"@].drop_last() =~= seq![request_target_name()]);
    assert(join(seq![request_target_name()], sp) == request_target_name());
    assert(join(seq![request_target_name(), "host"@], sp) == request_target_name() + sp + "host"@);
    assert(join(seq![request_target_name(), "host"@, "date"@], sp) == request_target_name() + sp
        + "host"@ + sp + "date"@);
    assert(join(n4, sp) == request_target_name() + sp + "host"@ + sp + "date"@ + sp + "digest"@);
    assert(join(n4, sp) =~= mastodon_covered_list());
}

/// The `Signature` header of the Mastodon-compatible profile, written
/// out.
pub open spec fn mastodon_signature_header(key_id: Seq<char>, signature: Seq<char>) -> Seq<char> {
    "keyId=\""@ + key_id
        + "\",algorithm=\"rsa-sha256\",headers=\"(request-target) host date digest\",signature=\""@
        + signature + "\""@
}

/// Under the Mastodon-compatible profile the `Signature` header names the
/// key, `rsa-sha256`, the four covered components, and the signature, in
/// this order.
pub proof fn lemma_mastodon_signature_header(key_id: Seq<char>, signature: Seq<char>)
    ensures
        signature_header_of(key_id, mastodon_profile(), signature) == mastodon_signature_header(
            key_id,
            signature,
        ),
{
    lemma_mastodon_covered_list();
    reveal_strlit("keyId=\"");
    reveal_strlit("\",algorithm=\"");
    reveal_strlit("rsa-sha256");
    reveal_strlit("\",headers=\"");
    reveal_strlit("(request-target) host date digest");
    reveal_strlit("\",signature=\"");
    reveal_strlit("\"");
    reveal_strlit(
        "\",algorithm=\"rsa-sha256\",headers=\"(request-target) host date digest\",signature=\"",
    );
    assert("\",algorithm=\""@ + "rsa-sha256"@ + "\",headers=\""@
        + "(request-target) host date digest"@ + "\",signature=\""@
        =~= "\",algorithm=\"rsa-sha256\",headers=\"(request-target) host date digest\",signature=\""@);
    assert(signature_header_of(key_id, mastodon_profile(), signature)
        =~= mastodon_signature_header(key_id, signature));
}

} // verus!
