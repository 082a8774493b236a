//! Self-signed certificates for tests.

use vstd::prelude::*;
use vstd::string::*;

verus! {

/// The length of a day, in seconds.
pub const DAY: u64 = 86_400;

/// The start of 1970, in seconds since the start of the year 0, both in UTC.
pub const UNIX_EPOCH: u64 = 62_167_219_200;

/// The last second of the year 9999, in seconds since the start of the year 0.
pub const LAST_SECOND: u64 = 315_569_519_999;

/// The file that holds the certificate.
pub const CERT_FILE: &'static str = "cert.pem";

/// The file that holds the private key.
pub const KEY_FILE: &'static str = "key.pem";

/// Why no certificate was made.
#[derive(Debug)]
pub enum CertError {
    /// The clock shows a time at which no certificate can be made: it would be
    /// valid before the year 0 or after the year 9999.
    Clock,
    /// The certificate could not be made.
    Generation(rcgen::Error),
}

/// What a certificate is to say. Times are in seconds since the start of the
/// year 0, in UTC.
#[derive(Debug)]
pub struct CertParams {
    /// The domain name or the IP address that the certificate is for.
    pub domain: String,
    /// The first second of its validity.
    pub not_before: u64,
    /// The last second of its validity.
    pub not_after: u64,
    /// Its serial number.
    pub serial_number: u64,
}

impl CertParams {
    /// Whether a certificate can say this: the name is ASCII, and both times
    /// lie in the years that a certificate can express.
    pub open spec fn wf(&self) -> bool {
        &&& vstd::utf8::is_ascii_chars(self.domain@)
        &&& self.not_before <= LAST_SECOND
        &&& self.not_after <= LAST_SECOND
    }
}

/// A reading of the clock: the seconds and the nanoseconds after the start of
/// 1970, or, as an error, before it.
pub type ClockReading = Result<(u64, u32), (u64, u32)>;

/// The second, counted from the start of the year 0, in which the clock stands.
pub open spec fn second_of(clock: ClockReading) -> int {
    match clock {
        Ok((secs, _)) => UNIX_EPOCH + secs,
        Err((secs, nanos)) => if nanos == 0 {
            UNIX_EPOCH - secs
        } else {
            UNIX_EPOCH - secs - 1
        },
    }
}

/// Whether a certificate that is valid from a day before `second` until 365
/// days after it lies in the years that a certificate can express.
pub open spec fn is_certifiable(second: int) -> bool {
    DAY <= second && second + 365 * DAY <= LAST_SECOND
}

/// Whether `text` is a document in PEM form with the given label.
pub open spec fn is_pem(text: Seq<char>, label: Seq<char>) -> bool {
    exists|eol: Seq<char>, content: Seq<char>|
        (eol == "\n"@ || eol == "\r\n"@) && text == #[trigger] pem_document(label, content, eol)
}

/// The document in PEM form that has the given label and content.
pub open spec fn pem_document(label: Seq<char>, content: Seq<char>, eol: Seq<char>) -> Seq<char> {
    "-----BEGIN "@ + label + "-----"@ + eol + content + "-----END "@ + label + "-----"@ + eol
}

/// The subject alternative name that `rcgen::CertificateParams::new` makes of a
/// name, as a certificate encodes it: an IP address or a DNS name.
pub uninterp spec fn subject_alt_name(domain: Seq<char>) -> Seq<u8>;

/// What `rcgen::Certificate::serialize_pem` has written into a certificate: its
/// subject alternative name, the first and the last second of its validity and
/// its serial number.
pub uninterp spec fn certificate_fields(cert_pem: Seq<char>) -> (Seq<u8>, int, int, int);

/// The public key that `rcgen::Certificate::serialize_pem` has written into a
/// certificate.
pub uninterp spec fn certificate_key(cert_pem: Seq<char>) -> Seq<u8>;

/// Whether the signature that `rcgen::Certificate::serialize_pem` has written
/// into a certificate is one over the certificate by the private half of the
/// given public key.
pub uninterp spec fn is_signed_by(cert_pem: Seq<char>, public_key: Seq<u8>) -> bool;

/// The public key that belongs to a private key which
/// `rcgen::Certificate::serialize_private_key_pem` has written.
pub uninterp spec fn public_key_of(key_pem: Seq<char>) -> Seq<u8>;

/// An error of the certificate generator.
#[verifier::external_type_specification]
#[verifier::external_body]
pub struct ExRcgenError(rcgen::Error);

/// Calls `rcgen::Certificate::from_params`, `serialize_pem` and
/// `serialize_private_key_pem`, with parameters that
/// `rcgen::CertificateParams::new` makes of the name. Trusted: on success the
/// two texts are in PEM form; the certificate says what the arguments say, its
/// key is the public half of the private key, and it is signed by that key.
/// Which key it is, and whether the call succeeds, is up to the random number
/// generator.
///
/// A name that is not ASCII, and a time outside the years 0 to 9999, make the
/// generator panic.
#[verifier::external_body]
fn self_signed(domain: &str, not_before: u64, not_after: u64, serial_number: u64) -> (result:
    Result<(String, String), rcgen::Error>)
    requires
        vstd::utf8::is_ascii_chars(domain@),
        not_before <= LAST_SECOND,
        not_after <= LAST_SECOND,
    ensures
        result matches Ok((cert_pem, key_pem)) ==> is_pem(cert_pem@, "CERTIFICATE"@) && is_pem(
            key_pem@,
            "PRIVATE KEY"@,
        ),
        result matches Ok((cert_pem, key_pem)) ==> certificate_fields(cert_pem@) == (
            subject_alt_name(domain@),
            not_before as int,
            not_after as int,
            serial_number as int,
        ),
        result matches Ok((cert_pem, key_pem)) ==> certificate_key(cert_pem@) == public_key_of(
            key_pem@,
        ),
        result matches Ok((cert_pem, key_pem)) ==> is_signed_by(
            cert_pem@,
            certificate_key(cert_pem@),
        ),
{
    let mut params = rcgen::CertificateParams::new(vec![domain.to_string()]);
    let year_zero = rcgen::date_time_ymd(0, 1, 1);
    params.not_before = year_zero + std::time::Duration::from_secs(not_before);
    params.not_after = year_zero + std::time::Duration::from_secs(not_after);
    params.serial_number = Some(serial_number.into());
    let cert = rcgen::Certificate::from_params(params)?;
    Ok((cert.serialize_pem()?, cert.serialize_private_key_pem()))
}

/// A time of the system clock.
#[verifier::external_type_specification]
#[verifier::external_body]
pub struct ExSystemTime(std::time::SystemTime);

/// Calls `std::time::SystemTime::now`. The result is up to the clock.
#[verifier::external_body]
fn now() -> (time: std::time::SystemTime)
{
    std::time::SystemTime::now()
}

/// Calls `std::time::SystemTime::duration_since` with the start of 1970, and
/// returns the time after it, or, as an error, the time before it. Trusted: the
/// nanoseconds are less than a second. The time itself is not stated.
#[verifier::external_body]
fn since_unix_epoch(time: std::time::SystemTime) -> (clock: ClockReading)
    ensures
        match clock {
            Ok((_, nanos)) => nanos < 1_000_000_000,
            Err((_, nanos)) => nanos < 1_000_000_000,
        },
{
    match time.duration_since(std::time::UNIX_EPOCH) {
        Ok(after) => Ok((after.as_secs(), after.subsec_nanos())),
        Err(e) => Err((e.duration().as_secs(), e.duration().subsec_nanos())),
    }
}

/// Whether `params` are those of a test certificate for `domain` that is made
/// when the clock shows `clock`: valid from a day ago and for another 365 days,
/// with the serial number 1.
pub open spec fn are_test_params(
    params: CertParams,
    domain: Seq<char>,
    clock: ClockReading,
) -> bool {
    &&& params.domain@ == domain
    &&& params.not_before == second_of(clock) - DAY
    &&& params.not_after == second_of(clock) + 365 * DAY
    &&& params.serial_number == 1
}

/// Chooses what a test certificate for `domain` says when the clock shows
/// `clock`, and fails where no certificate could be made at that time.
pub fn test_cert_params(domain: &str, clock: ClockReading) -> (params: Result<
    CertParams,
    CertError,
>)
    ensures
        match params {
            Ok(params) => is_certifiable(second_of(clock)) && are_test_params(
                params,
                domain@,
                clock,
            ),
            Err(error) => error == CertError::Clock && !is_certifiable(second_of(clock)),
        },
        params matches Ok(params) ==> params.domain@ == domain@ && params.serial_number == 1
            && params.not_after - params.not_before == 366 * 24 * 3600,
        clock matches Ok((secs, _)) ==> (params matches Ok(params) ==> params.not_before
            == UNIX_EPOCH + secs - 24 * 3600),
{
    let second: u64 = match clock {
        Ok((secs, _)) => {
            if secs > LAST_SECOND {
                return Err(CertError::Clock);
            }
            UNIX_EPOCH + secs
        },
        Err((secs, nanos)) => {
            if secs >= UNIX_EPOCH {
                return Err(CertError::Clock);
            }
            if nanos == 0 {
                UNIX_EPOCH - secs
            } else {
                UNIX_EPOCH - secs - 1
            }
        },
    };
    if second < DAY || second + 365 * DAY > LAST_SECOND {
        return Err(CertError::Clock);
    }
    Ok(
        CertParams {
            domain: domain.to_owned(),
            not_before: second - DAY,
            not_after: second + 365 * DAY,
            serial_number: 1,
        },
    )
}

/// Whether `cert_pem` and `key_pem` are a certificate that says what `params`
/// say, signed by its own key, and its private key.
pub open spec fn certifies(cert_pem: Seq<char>, key_pem: Seq<char>, params: CertParams) -> bool {
    &&& is_pem(cert_pem, "CERTIFICATE"@)
    &&& is_pem(key_pem, "PRIVATE KEY"@)
    &&& certificate_fields(cert_pem) == (
        subject_alt_name(params.domain@),
        params.not_before as int,
        params.not_after as int,
        params.serial_number as int,
    )
    &&& certificate_key(cert_pem) == public_key_of(key_pem)
    &&& is_signed_by(cert_pem, certificate_key(cert_pem))
}

/// Returns what the generator made, or why it made nothing.
pub fn issued(result: Result<(String, String), rcgen::Error>) -> (issued: Result<
    (String, String),
    CertError,
>)
    ensures
        issued == (match result {
            Ok(pair) => Ok::<(String, String), CertError>(pair),
            Err(error) => Err(CertError::Generation(error)),
        }),
{
    match result {
        Ok(pair) => Ok(pair),
        Err(error) => Err(CertError::Generation(error)),
    }
}

/// Makes a self-signed certificate and its private key, both in PEM form.
pub fn issue_certificate(params: &CertParams) -> (result: Result<(String, String), CertError>)
    requires
        params.wf(),
    ensures
        match result {
            Ok((cert_pem, key_pem)) => certifies(cert_pem@, key_pem@, *params),
            Err(error) => error is Generation,
        },
        result matches Ok((cert_pem, key_pem)) ==> certificate_fields(cert_pem@) == (
            subject_alt_name(params.domain@),
            params.not_before as int,
            params.not_after as int,
            params.serial_number as int,
        ) && is_signed_by(cert_pem@, public_key_of(key_pem@)),
{
    issued(
        self_signed(
            params.domain.as_str(),
            params.not_before,
            params.not_after,
            params.serial_number,
        ),
    )
}

/// Whether `cert_pem` and `key_pem` are a test certificate for `domain` and its
/// private key: signed by its own key, valid for 366 days, with the serial
/// number 1.
pub open spec fn is_test_cert(cert_pem: Seq<char>, key_pem: Seq<char>, domain: Seq<char>) -> bool {
    let (name, not_before, not_after, serial_number) = certificate_fields(cert_pem);
    &&& is_pem(cert_pem, "CERTIFICATE"@)
    &&& is_pem(key_pem, "PRIVATE KEY"@)
    &&& certificate_key(cert_pem) == public_key_of(key_pem)
    &&& is_signed_by(cert_pem, certificate_key(cert_pem))
    &&& name == subject_alt_name(domain)
    &&& not_after - not_before == 366 * DAY
    &&& serial_number == 1
}

/// Whether `cert_pem` and `key_pem` are a test certificate for `domain` and its
/// private key, made when the clock showed `clock`: valid from a day before it
/// until 365 days after it.
pub open spec fn is_test_cert_at(
    cert_pem: Seq<char>,
    key_pem: Seq<char>,
    domain: Seq<char>,
    clock: ClockReading,
) -> bool {
    &&& is_test_cert(cert_pem, key_pem, domain)
    &&& certificate_fields(cert_pem) == (
        subject_alt_name(domain),
        second_of(clock) - DAY,
        second_of(clock) + 365 * DAY,
        1int,
    )
}

/// Whether `result` is what comes of making a test certificate for `domain` when
/// the clock shows `clock`: the certificate and its key, or the error of the
/// generator; and the error of the clock, always and only at a time that no
/// certificate can express.
pub open spec fn is_outcome_at(
    domain: Seq<char>,
    clock: ClockReading,
    result: Result<(String, String), CertError>,
) -> bool {
    match result {
        Ok((cert_pem, key_pem)) => is_certifiable(second_of(clock)) && is_test_cert_at(
            cert_pem@,
            key_pem@,
            domain,
            clock,
        ),
        Err(CertError::Generation(_)) => is_certifiable(second_of(clock)),
        Err(CertError::Clock) => !is_certifiable(second_of(clock)),
    }
}

/// Makes a self-signed certificate for `domain` and its private key, both in
/// PEM form, at the time that `clock` shows.
pub fn generate_cert_and_key_at(domain: &str, clock: ClockReading) -> (result: Result<
    (String, String),
    CertError,
>)
    requires
        vstd::utf8::is_ascii_chars(domain@),
    ensures
        is_outcome_at(domain@, clock, result),
{
    match test_cert_params(domain, clock) {
        Ok(params) => issue_certificate(&params),
        Err(error) => Err(error),
    }
}

/// Makes a self-signed certificate for `domain` and its private key, both in
/// PEM form. It is valid from a day ago and for another 365 days.
pub fn generate_cert_and_key_for_domain(domain: &str) -> (result: Result<
    (String, String),
    CertError,
>)
    requires
        vstd::utf8::is_ascii_chars(domain@),
    ensures
        result matches Ok((cert_pem, key_pem)) ==> is_test_cert(cert_pem@, key_pem@, domain@),
        exists|clock: ClockReading| #[trigger] is_outcome_at(domain@, clock, result),
{
    let clock = since_unix_epoch(now());
    let result = generate_cert_and_key_at(domain, clock);
    assert(is_outcome_at(domain@, clock, result));
    result
}

/// Makes a self-signed certificate for `localhost` and its private key, both in
/// PEM form.
pub fn generate_cert_and_key() -> (result: Result<(String, String), CertError>)
    ensures
        result matches Ok((cert_pem, key_pem)) ==> is_test_cert(
            cert_pem@,
            key_pem@,
            "localhost"@,
        ),
        exists|clock: ClockReading| #[trigger] is_outcome_at("localhost"@, clock, result),
{
    proof {
        reveal_strlit("localhost");
    }
    generate_cert_and_key_for_domain("localhost")
}

/// The second of a reading is the one in which the clock stands: the last that
/// had begun, whether the clock stands after the start of 1970 or before it.
pub proof fn law_second_has_begun_and_not_ended(secs: u64, nanos: u32)
    requires
        nanos < 1_000_000_000,
    ensures
        ({
            let epoch = 62_167_219_200 * 1_000_000_000;
            let time = secs * 1_000_000_000 + nanos;
            let after = second_of(Ok((secs, nanos))) * 1_000_000_000;
            let before = second_of(Err((secs, nanos))) * 1_000_000_000;
            &&& after <= epoch + time < after + 1_000_000_000
            &&& before <= epoch - time < before + 1_000_000_000
        }),
{
}

/// A test certificate is for the name, with the serial number 1, from exactly a
/// day before the clock until exactly 365 days after it; it can be made exactly
/// when both of these lie in the years 0 to 9999.
pub proof fn law_test_cert_is_for_a_year(
    params: CertParams,
    domain: Seq<char>,
    clock: ClockReading,
)
    requires
        are_test_params(params, domain, clock),
    ensures
        params.domain@ == domain,
        params.serial_number == 1,
        second_of(clock) - params.not_before == 24 * 3600,
        params.not_after - second_of(clock) == 365 * 24 * 3600,
        is_certifiable(second_of(clock)) <==> 0 <= second_of(clock) - 24 * 3600 && second_of(clock)
            + 365 * 24 * 3600 <= 315_569_519_999,
{
}

/// What is made at a reading of the clock is a certificate in PEM form for the
/// name, with the dates of that reading, signed by its own key, and the private
/// key to it. It fails on account of the clock exactly where no certificate can
/// express the dates.
pub proof fn law_outcome_fits_the_clock(
    domain: Seq<char>,
    clock: ClockReading,
    result: Result<(String, String), CertError>,
)
    requires
        is_outcome_at(domain, clock, result),
    ensures
        result matches Err(CertError::Clock) <==> !(0 <= second_of(clock) - 24 * 3600
            && second_of(clock) + 365 * 24 * 3600 <= 315_569_519_999),
        result matches Ok((cert_pem, key_pem)) ==> {
            &&& certificate_fields(cert_pem@) == (
                subject_alt_name(domain),
                second_of(clock) - 24 * 3600,
                second_of(clock) + 365 * 24 * 3600,
                1int,
            )
            &&& certificate_key(cert_pem@) == public_key_of(key_pem@)
            &&& is_signed_by(cert_pem@, public_key_of(key_pem@))
            &&& is_pem(cert_pem@, "CERTIFICATE"@)
            &&& is_pem(key_pem@, "PRIVATE KEY"@)
            &&& is_test_cert(cert_pem@, key_pem@, domain)
        },
{
}

/// A test certificate is valid at the second in which it is made, and says
/// nothing that a certificate cannot say.
pub proof fn law_test_cert_is_valid_when_made(
    params: CertParams,
    domain: Seq<char>,
    clock: ClockReading,
)
    requires
        vstd::utf8::is_ascii_chars(domain),
        is_certifiable(second_of(clock)),
        are_test_params(params, domain, clock),
    ensures
        params.wf(),
        params.not_before <= second_of(clock) <= params.not_after,
{
}

} // verus!
