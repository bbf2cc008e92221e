//! Properties that span several operations of the library.
use vstd::prelude::*;
use crate::api::{api_groups_spec, ApiGroup};
use crate::config::{file_complete, resolves, same_config, written_file, Config, ConfigFile};
use crate::ha::{insert_all_spec, EntityState};
use crate::auth::bcrypt_accepts;
use crate::auth::{random_source_failure, session_claims_of, session_token_of, token_result_spec};
use crate::setup::{owner_step, CompleteSetupRequest, SetupReply};
use crate::text::{digits_value, parse_u16_spec, replace_all_spec, unsigned_digits};
use crate::login::{
    bearer_spec, check_user_spec, expired, login_answers, password_check_spec, session_claims_spec,
    session_user_ok, LoginError, LoginReply, User,
};

verus! {

/// A read of the cache gives back the state last stored for that entity,
/// and storing one entity leaves every other entity as it was.
pub proof fn law_read_after_write(m: Map<Seq<char>, EntityState>, e: EntityState, k: Seq<char>)
    ensures
        m.insert(e.entity_id@, e).contains_key(e.entity_id@),
        m.insert(e.entity_id@, e)[e.entity_id@] == e,
        k != e.entity_id@ ==> (m.insert(e.entity_id@, e).contains_key(k) == m.contains_key(k)),
        k != e.entity_id@ && m.contains_key(k) ==> m.insert(e.entity_id@, e)[k] == m[k],
{
}

/// After a refresh from HA, an entity that the refresh names holds the
/// last state the refresh gives for it.
pub proof fn law_refresh_last_state_wins(m: Map<Seq<char>, EntityState>, s: Seq<EntityState>, i: int)
    requires
        0 <= i < s.len(),
        forall|j: int| i < j < s.len() ==> s[j].entity_id@ != s[i].entity_id@,
    ensures
        insert_all_spec(m, s).contains_key(s[i].entity_id@),
        insert_all_spec(m, s)[s[i].entity_id@] == s[i],
    decreases s.len(),
{
    if i < s.len() - 1 {
        let t = s.drop_last();
        assert forall|j: int| i < j < t.len() implies t[j].entity_id@ != t[i].entity_id@ by {
            assert(t[j] == s[j]);
        }
        law_refresh_last_state_wins(m, t, i);
        assert(s.last().entity_id@ != s[i].entity_id@);
    }
}

/// After a refresh from HA, an entity that the refresh does not name keeps
/// what the cache held for it (or stays absent).
pub proof fn law_refresh_keeps_unnamed(m: Map<Seq<char>, EntityState>, s: Seq<EntityState>, k: Seq<char>)
    requires
        forall|j: int| 0 <= j < s.len() ==> s[j].entity_id@ != k,
    ensures
        insert_all_spec(m, s).contains_key(k) == m.contains_key(k),
        m.contains_key(k) ==> insert_all_spec(m, s)[k] == m[k],
    decreases s.len(),
{
    if s.len() > 0 {
        let t = s.drop_last();
        assert forall|j: int| 0 <= j < t.len() implies t[j].entity_id@ != k by {
            assert(t[j] == s[j]);
        }
        law_refresh_keeps_unnamed(m, t, k);
        assert(s.last().entity_id@ != k);
    }
}

/// The index of the last entry of `s` with id `k`, or -1 if none has it.
pub open spec fn last_index_of(s: Seq<EntityState>, k: Seq<char>) -> int
    decreases s.len(),
{
    if s.len() == 0 {
        -1
    } else if s.last().entity_id@ == k {
        s.len() - 1
    } else {
        last_index_of(s.drop_last(), k)
    }
}

proof fn lemma_last_index_of(s: Seq<EntityState>, k: Seq<char>)
    ensures
        -1 <= last_index_of(s, k) < s.len(),
        last_index_of(s, k) >= 0 ==> s[last_index_of(s, k)].entity_id@ == k,
        forall|j: int| last_index_of(s, k) < j < s.len() ==> s[j].entity_id@ != k,
    decreases s.len(),
{
    if s.len() > 0 && s.last().entity_id@ != k {
        let t = s.drop_last();
        lemma_last_index_of(t, k);
        assert forall|j: int| last_index_of(s, k) < j < s.len() implies s[j].entity_id@ != k by {
            if j < t.len() {
                assert(s[j] == t[j]);
            }
        }
    }
}

/// Refreshing twice from the same answer of HA leaves the cache as the
/// first refresh left it.
pub proof fn law_refresh_is_idempotent(m: Map<Seq<char>, EntityState>, s: Seq<EntityState>)
    ensures
        insert_all_spec(insert_all_spec(m, s), s) == insert_all_spec(m, s),
{
    let once = insert_all_spec(m, s);
    let twice = insert_all_spec(once, s);
    assert forall|k: Seq<char>| #[trigger] twice.contains_key(k) == once.contains_key(k) && (
    once.contains_key(k) ==> twice[k] == once[k]) by {
        lemma_last_index_of(s, k);
        let i = last_index_of(s, k);
        if i >= 0 {
            law_refresh_last_state_wins(m, s, i);
            law_refresh_last_state_wins(once, s, i);
        } else {
            law_refresh_keeps_unnamed(once, s, k);
        }
    }
    assert(twice =~= once);
}

/// The setup wizard is served exactly in setup mode; in setup mode nothing
/// but the health check and the wizard is served, and otherwise login,
/// entities and the live socket are.
pub proof fn law_wizard_only_in_setup_mode(setup_mode: bool)
    ensures
        api_groups_spec(setup_mode).contains(ApiGroup::Health),
        api_groups_spec(setup_mode).contains(ApiGroup::Setup) <==> setup_mode,
        setup_mode ==> !api_groups_spec(setup_mode).contains(ApiGroup::Auth)
            && !api_groups_spec(setup_mode).contains(ApiGroup::Entities)
            && !api_groups_spec(setup_mode).contains(ApiGroup::Ws),
        !setup_mode ==> api_groups_spec(setup_mode).contains(ApiGroup::Auth)
            && api_groups_spec(setup_mode).contains(ApiGroup::Entities)
            && api_groups_spec(setup_mode).contains(ApiGroup::Ws),
{
    let g = api_groups_spec(setup_mode);
    assert(g[0] == ApiGroup::Health);
    if setup_mode {
        assert(g[1] == ApiGroup::Setup);
        assert(!g.contains(ApiGroup::Auth)) by {
            if g.contains(ApiGroup::Auth) {
                let i: int = choose|i: int| 0 <= i < g.len() && g[i] == ApiGroup::Auth;
            }
        }
        assert(!g.contains(ApiGroup::Entities)) by {
            if g.contains(ApiGroup::Entities) {
                let i: int = choose|i: int| 0 <= i < g.len() && g[i] == ApiGroup::Entities;
            }
        }
        assert(!g.contains(ApiGroup::Ws)) by {
            if g.contains(ApiGroup::Ws) {
                let i: int = choose|i: int| 0 <= i < g.len() && g[i] == ApiGroup::Ws;
            }
        }
    } else {
        assert(g[1] == ApiGroup::Auth);
        assert(g[2] == ApiGroup::Entities);
        assert(g[3] == ApiGroup::Ws);
        assert(!g.contains(ApiGroup::Setup)) by {
            if g.contains(ApiGroup::Setup) {
                let i: int = choose|i: int| 0 <= i < g.len() && g[i] == ApiGroup::Setup;
            }
        }
    }
}

/// Whenever the entity endpoints are served, a configuration, and with it
/// an HA client, exists: they never answer "HA not connected" to a
/// request that reached them through the normal router.
pub proof fn law_entities_served_only_with_config(cfg: Option<Config>)
    ensures
        api_groups_spec(cfg is None).contains(ApiGroup::Entities) ==> cfg is Some,
{
    law_wizard_only_in_setup_mode(cfg is None);
}

/// A configuration written to a file and read back is complete, so the
/// next boot leaves setup mode, and it reads back with the same values.
pub proof fn law_written_config_reloads(c: Config, back: Config)
    ensures
        file_complete(written_file(c)),
        resolves(written_file(c), back) ==> same_config(back, c),
{
}

/// An enabled user without an expiry, such as the owner the wizard
/// creates, is never refused, whatever the time.
pub proof fn law_unexpiring_user_passes(u: User, now: i64)
    requires
        u.enabled,
        u.expires_at is None,
    ensures
        check_user_spec(Ok(Some(u)), now) == Ok::<User, LoginError>(u),
{
}

/// A disabled user is refused at every time, whatever the expiry: turning
/// an account off revokes its access at once.
pub proof fn law_disabled_user_refused(u: User, now: i64)
    requires
        !u.enabled,
    ensures
        check_user_spec(Ok(Some(u)), now) == Err::<User, LoginError>(LoginError::InvalidCredentials),
{
}

/// The password check lets a user through only with a password that bcrypt
/// accepts against the stored hash, and always with such a password.
pub proof fn law_password_gates_login(u: User, password: Seq<char>)
    ensures
        password_check_spec(u, password) is Ok <==> bcrypt_accepts(password, u.password_hash@),
        password_check_spec(u, password) is Ok ==> password_check_spec(u, password) == Ok::<
            User,
            LoginError,
        >(u),
{
}

/// The owner the wizard creates (enabled, never expiring, stored with a
/// hash that bcrypt accepts for the chosen password) signs in with that
/// password at any time.
pub proof fn law_owner_signs_in_with_own_password(u: User, password: Seq<char>, now: i64)
    requires
        u.enabled,
        u.expires_at is None,
        bcrypt_accepts(password, u.password_hash@),
    ensures
        check_user_spec(Ok(Some(u)), now) == Ok::<User, LoginError>(u),
        password_check_spec(u, password) == Ok::<User, LoginError>(u),
{
}

/// A login answers with a token only for an enabled, unexpired user whose
/// password bcrypt accepts against the stored hash.
pub proof fn law_token_only_for_valid_login(
    r: LoginReply,
    lookup: Result<Option<User>, String>,
    password: Seq<char>,
    secret: Seq<char>,
    days: u64,
    now: i64,
)
    requires
        login_answers(r, lookup, password, secret, days, now),
        r is Success,
    ensures
        lookup matches Ok(Some(u)) && u.enabled && !expired(u, now) && bcrypt_accepts(
            password,
            u.password_hash@,
        ),
{
}

/// A token that decodes under the secret opens a session whenever it is
/// sent as `Bearer <token>` before its expiry, with the claims it carries.
pub proof fn law_token_opens_session(
    token: Seq<char>,
    secret: Seq<char>,
    claims: (Seq<char>, Seq<char>, Seq<char>, i64),
    now: i64,
)
    requires
        session_claims_of(token, secret) == Some(claims),
        now < claims.3,
    ensures
        session_claims_spec(Some("Bearer "@ + token), secret, now) == Some(claims),
{
    reveal_strlit("Bearer ");
    let h = "Bearer "@ + token;
    assert(h.take(7) =~= "Bearer "@);
    assert(h.skip(7) =~= token);
    assert(bearer_spec(h) == Some(token));
}

/// From its expiry on, a token no longer opens a session.
pub proof fn law_expired_token_refused(header: Seq<char>, secret: Seq<char>, now: i64)
    ensures
        session_claims_spec(Some(header), secret, now) matches Some(c) ==> now < c.3,
{
}

/// A disabled or expired user's session is turned away on the next request,
/// whatever token it carries.
pub proof fn law_revoked_user_loses_session(sub: Seq<char>, u: User, now: i64)
    requires
        !u.enabled || expired(u, now),
    ensures
        !session_user_ok(sub, Ok(Some(u)), now),
{
}

/// The character of a decimal digit.
pub open spec fn digit_char(d: int) -> char {
    if d == 0 {
        '0'
    } else if d == 1 {
        '1'
    } else if d == 2 {
        '2'
    } else if d == 3 {
        '3'
    } else if d == 4 {
        '4'
    } else if d == 5 {
        '5'
    } else if d == 6 {
        '6'
    } else if d == 7 {
        '7'
    } else if d == 8 {
        '8'
    } else {
        '9'
    }
}

/// The usual decimal text of `n`, without sign or leading zeros.
pub open spec fn decimal_text(n: nat) -> Seq<char>
    decreases n,
{
    if n < 10 {
        seq![digit_char(n as int)]
    } else {
        decimal_text(n / 10) + seq![digit_char((n % 10) as int)]
    }
}

proof fn lemma_digit_char(d: int)
    requires
        0 <= d < 10,
    ensures
        digit_char(d) as nat - '0' as nat == d,
        '0' <= digit_char(d) <= '9',
{
}

proof fn lemma_decimal_text(n: nat)
    ensures
        decimal_text(n).len() > 0,
        forall|i: int| 0 <= i < decimal_text(n).len() ==> '0' <= #[trigger] decimal_text(n)[i] <= '9',
        digits_value(decimal_text(n)) == n,
    decreases n,
{
    if n < 10 {
        lemma_digit_char(n as int);
        let t = decimal_text(n);
        assert(t.drop_last() =~= Seq::<char>::empty());
        assert(digits_value(t.drop_last()) == 0);
        assert(t.last() == digit_char(n as int));
    } else {
        lemma_decimal_text(n / 10);
        lemma_digit_char((n % 10) as int);
        let t = decimal_text(n);
        let d = digit_char((n % 10) as int);
        assert(t.drop_last() =~= decimal_text(n / 10));
        assert(t.last() == d);
        assert forall|i: int| 0 <= i < t.len() implies '0' <= #[trigger] t[i] <= '9' by {
            if i < t.len() - 1 {
                assert(t[i] == decimal_text(n / 10)[i]);
            }
        }
        assert(digits_value(t) == digits_value(decimal_text(n / 10)) * 10 + (d as nat - '0' as nat) as nat);
        assert(n == (n / 10) * 10 + n % 10);
    }
}

/// A number above 65535 is no port, however it is written in decimal.
pub proof fn law_port_too_large(n: nat)
    requires
        n > 65535,
    ensures
        parse_u16_spec(decimal_text(n)) is None,
{
    let t = decimal_text(n);
    lemma_decimal_text(n);
    assert(t[0] != '+');
    assert(unsigned_digits(t) == t);
}

/// Every port number written in the usual decimal way reads back as that
/// number: the port parser accepts each of the ten digits.
pub proof fn law_port_text_round_trip(n: u16)
    ensures
        parse_u16_spec(decimal_text(n as nat)) == Some(n),
        parse_u16_spec(seq!['+'] + decimal_text(n as nat)) == Some(n),
{
    let t = decimal_text(n as nat);
    lemma_decimal_text(n as nat);
    assert(t[0] != '+');
    assert(unsigned_digits(t) == t);
    let p = seq!['+'] + t;
    assert(p.skip(1) =~= t);
    assert(unsigned_digits(p) == t);
}

/// A token is made whenever the session's end, `days` whole days after
/// `now`, is a representable instant, and it carries that end as expiry.
pub proof fn law_token_made_when_end_fits(
    sub: Seq<char>,
    username: Seq<char>,
    role: Seq<char>,
    secret: Seq<char>,
    days: u64,
    now: i64,
)
    requires
        i64::MIN <= now + days * 86400 <= i64::MAX,
    ensures
        token_result_spec(sub, username, role, secret, days, now) == Ok::<Seq<char>, Seq<char>>(
            session_token_of(sub, username, role, (now + days * 86400) as i64, secret),
        ),
{
}

/// An enabled user whose access has not run out and who gives a password
/// that bcrypt accepts always signs in, whatever the session length, as
/// long as the session's end is a representable instant: the answer is the
/// token for the user's id, name and role expiring `days` days after `now`,
/// with the user's role and display name.
pub proof fn law_valid_login_succeeds(
    r: LoginReply,
    u: User,
    password: Seq<char>,
    secret: Seq<char>,
    days: u64,
    now: i64,
)
    requires
        login_answers(r, Ok(Some(u)), password, secret, days, now),
        u.enabled,
        u.expires_at matches Some(exp) ==> now <= exp,
        bcrypt_accepts(password, u.password_hash@),
        i64::MIN <= now + days * 86400 <= i64::MAX,
    ensures
        r matches LoginReply::Success { token, role, display_name } && token@ == session_token_of(
            u.id@,
            u.username@,
            u.role@,
            (now + days * 86400) as i64,
            secret,
        ) && role == u.role && display_name == u.display_name,
{
}

/// A user whose access ends at some instant is let through until that
/// instant (inclusive) and refused as expired only after it.
pub proof fn law_guest_expiry_is_an_instant(u: User, now: i64, exp: i64)
    requires
        u.enabled,
        u.expires_at == Some(exp),
    ensures
        now <= exp ==> check_user_spec(Ok(Some(u)), now) == Ok::<User, LoginError>(u),
        exp < now ==> check_user_spec(Ok(Some(u)), now) == Err::<User, LoginError>(
            LoginError::GuestExpired,
        ),
{
}

/// A session is kept exactly for its own user while that user is enabled
/// and its access has not run out: a guest whose expiry is still ahead (or
/// now) keeps using the dashboard.
pub proof fn law_session_user(sub: Seq<char>, lookup: Result<Option<User>, String>, now: i64)
    ensures
        session_user_ok(sub, lookup, now) <==> (lookup matches Ok(Some(u)) && u.id@ == sub
            && u.enabled && (u.expires_at matches Some(exp) ==> now <= exp)),
{
}

/// The defaults of a configuration file: a missing theme is "dark", a
/// missing domain empty, a missing `verify_ssl` false, a missing
/// `session_days` 30; without a `[features]` table both features are off,
/// and within a present table a feature it does not name is on.
pub proof fn law_config_defaults(f: ConfigFile, c: Config)
    requires
        file_complete(f),
        resolves(f, c),
    ensures
        f.app->0.theme is None ==> c.app.theme@ == "dark"@,
        f.app->0.domain is None ==> c.app.domain@ == Seq::<char>::empty(),
        f.ha->0.verify_ssl is None ==> !c.ha.verify_ssl,
        f.auth->0.session_days is None ==> c.auth.session_days == 30,
        f.features is None ==> !c.features.discovery_enabled && !c.features.guest_access,
        f.features matches Some(fs) ==> (fs.discovery_enabled is None
            ==> c.features.discovery_enabled),
        f.features matches Some(fs) ==> (fs.guest_access is None ==> c.features.guest_access),
        f.features matches Some(fs) ==> (fs.discovery_enabled matches Some(b)
            ==> c.features.discovery_enabled == b),
        f.features matches Some(fs) ==> (fs.guest_access matches Some(b) ==> c.features.guest_access
            == b),
        c.app.name@ == f.app->0.name->0@,
        f.app->0.theme matches Some(t) ==> c.app.theme@ == t@,
        f.app->0.domain matches Some(d) ==> c.app.domain@ == d@,
        c.ha.url@ == f.ha->0.url->0@,
        c.ha.token@ == f.ha->0.token->0@,
        f.ha->0.verify_ssl matches Some(b) ==> c.ha.verify_ssl == b,
        c.auth.jwt_secret@ == f.auth->0.jwt_secret->0@,
        f.auth->0.session_days matches Some(d) ==> c.auth.session_days == d,
{
}

/// A configuration file is usable exactly when it names the app, the HA
/// address and token, and the session secret; nothing else is required.
pub proof fn law_required_keys(f: ConfigFile)
    ensures
        file_complete(f) <==> (f.app is Some && f.app->0.name is Some && f.ha is Some
            && f.ha->0.url is Some && f.ha->0.token is Some && f.auth is Some
            && f.auth->0.jwt_secret is Some),
{
}

/// Once the configuration is written, the wizard creates the owner for any
/// chosen password, however long; the only way it ends without an owner
/// is a failure of the system's randomness while salting the hash. The
/// owner it creates signs in with that password, never expires and is
/// enabled.
pub proof fn law_owner_created_unless_randomness_fails(
    req: CompleteSetupRequest,
    id: String,
    now: i64,
    r: Result<User, SetupReply>,
)
    requires
        owner_step(Ok(()), req, id, now, r),
    ensures
        r is Ok || (r matches Err(SetupReply::Failed { error }) && random_source_failure(error@)),
        r matches Ok(u) ==> bcrypt_accepts(req.owner_password@, u.password_hash@) && u.enabled
            && u.expires_at is None && u.role@ == "owner"@ && u.username@ == req.owner_username@,
{
}

/// Whether `pat` occurs in `s` at any position.
pub open spec fn occurs_in(s: Seq<char>, pat: Seq<char>) -> bool {
    exists|i: int| 0 <= i && i + pat.len() <= s.len() && #[trigger] s.subrange(i, i + pat.len()) == pat
}

/// A text that starts with the pattern has it replaced there, and the
/// replacing goes on after it.
pub proof fn law_replace_at_start(s: Seq<char>, pat: Seq<char>, rep: Seq<char>)
    requires
        pat.len() > 0,
    ensures
        replace_all_spec(pat + s, pat, rep) == rep + replace_all_spec(s, pat, rep),
{
    let t = pat + s;
    assert(t.take(pat.len() as int) =~= pat);
    assert(t.skip(pat.len() as int) =~= s);
}

/// A text in which the pattern does not occur is left as it is.
pub proof fn law_replace_absent(s: Seq<char>, pat: Seq<char>, rep: Seq<char>)
    requires
        pat.len() > 0,
        !occurs_in(s, pat),
    ensures
        replace_all_spec(s, pat, rep) == s,
    decreases s.len(),
{
    if s.len() >= pat.len() {
        let k: int = 0;
        assert(s.subrange(k, k + pat.len()) != pat);
        assert(s.subrange(k, k + pat.len()) =~= s.take(pat.len() as int));
        let t = s.skip(1);
        assert(!occurs_in(t, pat)) by {
            if occurs_in(t, pat) {
                let i = choose|i: int| 0 <= i && i + pat.len() <= t.len() && #[trigger] t.subrange(i, i + pat.len()) == pat;
                assert(s.subrange(i + 1, i + 1 + pat.len()) =~= t.subrange(i, i + pat.len()));
            }
        }
        law_replace_absent(t, pat, rep);
        assert(seq![s[0]] + t =~= s);
    }
}

/// The HA WebSocket address of a plain `http://` URL is the same host on
/// `ws://`, and that of an `https://` URL the same host on `wss://`, for
/// any host text that holds neither scheme itself.
pub proof fn law_websocket_scheme(host: Seq<char>)
    requires
        !occurs_in(host, "http://"@),
        !occurs_in(host, "https://"@),
    ensures
        replace_all_spec(replace_all_spec("http://"@ + host, "http://"@, "ws://"@), "https://"@, "wss://"@)
            == "ws://"@ + host,
        replace_all_spec(replace_all_spec("https://"@ + host, "http://"@, "ws://"@), "https://"@, "wss://"@)
            == "wss://"@ + host,
{
    reveal_strlit("http://");
    reveal_strlit("https://");
    reveal_strlit("ws://");
    reveal_strlit("wss://");
    law_replace_at_start(host, "http://"@, "ws://"@);
    law_replace_absent(host, "http://"@, "ws://"@);
    let w = "ws://"@ + host;
    let pats = "https://"@;
    assert(!occurs_in(w, pats)) by {
        if occurs_in(w, pats) {
            let i: int = choose|i: int| 0 <= i && i + pats.len() <= w.len() && #[trigger] w.subrange(i, i + pats.len()) == pats;
            if i >= 5 {
                let j: int = i - 5;
                assert(host.subrange(j, j + pats.len()) =~= w.subrange(i, i + pats.len()));
            } else {
                assert(w.subrange(i, i + pats.len())[0] == w[i]);
                assert(w[i] == "ws://"@[i]);
            }
        }
    }
    law_replace_absent(w, pats, "wss://"@);
    let h = "https://"@ + host;
    let patp = "http://"@;
    assert(!occurs_in(h, patp)) by {
        if occurs_in(h, patp) {
            let i: int = choose|i: int| 0 <= i && i + patp.len() <= h.len() && #[trigger] h.subrange(i, i + patp.len()) == patp;
            if i >= 8 {
                let j: int = i - 8;
                assert(host.subrange(j, j + patp.len()) =~= h.subrange(i, i + patp.len()));
            } else {
                let m = h.subrange(i, i + patp.len());
                assert(m[0] == h[i] && m[1] == h[i + 1] && m[4] == h[i + 4]);
                assert(h[i] == pats[i]);
                if i + 1 < 8 {
                    assert(h[i + 1] == pats[i + 1]);
                }
                if i + 4 < 8 {
                    assert(h[i + 4] == pats[i + 4]);
                } else {
                    assert(h[i + 4] == host[i + 4 - 8]);
                }
            }
        }
    }
    law_replace_absent(h, "http://"@, "ws://"@);
    law_replace_at_start(host, "https://"@, "wss://"@);
    law_replace_absent(host, "https://"@, "wss://"@);
}

} // verus!
