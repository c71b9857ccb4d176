//! Key material from PEM text: the certificates of a chain, and the first
//! private key of a key file.
//!
//! Sections are read with rustls-pemfile; which section is taken, and what is
//! reported where none fits, is decided here.

use rustls_pemfile::Item;
use vstd::prelude::*;

verus! {

/// Why no key material came out of a PEM text.
#[derive(Debug, Clone, Copy, PartialEq, Eq, Structural)]
pub enum PemError {
    /// rustls-pemfile rejected the text.
    Unparsable,
    /// The text holds no RSA (PKCS#1) or PKCS#8 private key.
    NoKey,
}

/// One section of a PEM text, as this library tells them apart.
pub enum PemSection {
    /// `CERTIFICATE`: a DER-encoded X.509 certificate.
    Certificate(Vec<u8>),
    /// `RSA PRIVATE KEY`: a DER-encoded PKCS#1 key.
    RsaKey(Vec<u8>),
    /// `PRIVATE KEY`: a DER-encoded PKCS#8 key.
    Pkcs8Key(Vec<u8>),
    /// Any other section (EC keys, revocation lists).
    Other,
}

/// Mathematical value of a `PemSection`.
pub enum SectionView {
    Certificate(Seq<u8>),
    RsaKey(Seq<u8>),
    Pkcs8Key(Seq<u8>),
    Other,
}

impl View for PemSection {
    type V = SectionView;

    open spec fn view(&self) -> SectionView {
        match self {
            PemSection::Certificate(der) => SectionView::Certificate(der@),
            PemSection::RsaKey(der) => SectionView::RsaKey(der@),
            PemSection::Pkcs8Key(der) => SectionView::Pkcs8Key(der@),
            PemSection::Other => SectionView::Other,
        }
    }
}

/// What `rustls_pemfile::read_one` reads from the start of `pem`: `None` for
/// an error, `Some(None)` where no section is left, and otherwise the section
/// with the number of bytes left unread after it.
pub uninterp spec fn pem_read_one(pem: Seq<u8>) -> Option<Option<(SectionView, nat)>>;

/// Trusted: calls `rustls_pemfile::read_one` on a reader over `pem`.
/// Claims that the outcome is `pem_read_one(pem)`, and that a section it
/// returns has consumed input (it ends with the section's end line).
#[verifier::external_body]
fn read_one_section(pem: &[u8]) -> (r: std::io::Result<Option<(PemSection, usize)>>)
    ensures
        match r {
            Err(_) => pem_read_one(pem@) is None,
            Ok(None) => pem_read_one(pem@) == Some(None::<(SectionView, nat)>),
            Ok(Some((section, left))) => pem_read_one(pem@) == Some(Some((section@, left as nat))),
        },
        r matches Ok(Some((_, left))) ==> left < pem@.len(),
{
    let mut rd: &[u8] = pem;
    match rustls_pemfile::read_one(&mut rd) {
        Ok(Some(Item::X509Certificate(der))) => Ok(Some((PemSection::Certificate(der), rd.len()))),
        Ok(Some(Item::RSAKey(der))) => Ok(Some((PemSection::RsaKey(der), rd.len()))),
        Ok(Some(Item::PKCS8Key(der))) => Ok(Some((PemSection::Pkcs8Key(der), rd.len()))),
        Ok(Some(_)) => Ok(Some((PemSection::Other, rd.len()))),
        Ok(None) => Ok(None),
        Err(e) => Err(e),
    }
}

/// The part of `pem` that `pem_read_one` leaves unread after a section, where
/// `left` bytes are left.
pub open spec fn unread(pem: Seq<u8>, left: nat) -> Seq<u8> {
    pem.subrange(pem.len() - left, pem.len() as int)
}

/// The DER bytes of every certificate section of `pem`, in order, reading
/// sections one after another with `pem_read_one`; `None` where a read fails.
pub open spec fn all_certs(pem: Seq<u8>) -> Option<Seq<Seq<u8>>>
    decreases pem.len(),
{
    match pem_read_one(pem) {
        None => None,
        Some(None) => Some(Seq::empty()),
        Some(Some((section, left))) => {
            // every section read consumes input, so `left < pem.len()` holds here
            if left < pem.len() {
                match all_certs(unread(pem, left)) {
                    Some(later) => match section {
                        SectionView::Certificate(der) => Some(seq![der] + later),
                        _ => Some(later),
                    },
                    None => None,
                }
            } else {
                None
            }
        },
    }
}

/// Trusted: calls `rustls_pemfile::certs` on a reader over `pem`.
/// Claims that the outcome is `all_certs(pem)`: `certs` calls `read_one` on
/// the reader until it reports no section or an error, and keeps the
/// certificates in order.
#[verifier::external_body]
fn read_certs(pem: &[u8]) -> (r: std::io::Result<Vec<Vec<u8>>>)
    ensures
        match r {
            Ok(certs) => all_certs(pem@) == Some(certs@.map_values(|c: Vec<u8>| c@)),
            Err(_) => all_certs(pem@) is None,
        },
{
    let mut rd: &[u8] = pem;
    rustls_pemfile::certs(&mut rd)
}

/// The DER bytes of every certificate in the PEM text `pem`, in order.
/// `pem` must be text that rustls-pemfile reads without error.
pub fn load_certs(pem: &[u8]) -> (certs: Vec<Vec<u8>>)
    requires
        all_certs(pem@) is Some,
    ensures
        all_certs(pem@) == Some(certs@.map_values(|c: Vec<u8>| c@)),
{
    match read_certs(pem) {
        Ok(certs) => certs,
        Err(_) => Vec::new(),
    }
}

/// The certificates of the PEM text `pem`, as `load_certs` gives them, or
/// `Unparsable` where rustls-pemfile rejects the text.
pub fn try_load_certs(pem: &[u8]) -> (r: Result<Vec<Vec<u8>>, PemError>)
    ensures
        match r {
            Ok(certs) => all_certs(pem@) == Some(certs@.map_values(|c: Vec<u8>| c@)),
            Err(e) => e == PemError::Unparsable && all_certs(pem@) is None,
        },
{
    match read_certs(pem) {
        Ok(certs) => Ok(certs),
        Err(_) => Err(PemError::Unparsable),
    }
}

/// The first RSA or PKCS#8 private key of `pem`, reading sections in order:
/// an error where reading fails before one is found, `NoKey` where the text
/// ends first.
pub open spec fn first_private_key(pem: Seq<u8>) -> Result<Seq<u8>, PemError>
    decreases pem.len(),
{
    match pem_read_one(pem) {
        None => Err(PemError::Unparsable),
        Some(None) => Err(PemError::NoKey),
        Some(Some((SectionView::RsaKey(der), _))) => Ok(der),
        Some(Some((SectionView::Pkcs8Key(der), _))) => Ok(der),
        Some(Some((_, left))) => {
            // every section read consumes input, so `left < pem.len()` holds here
            if left < pem.len() {
                first_private_key(unread(pem, left))
            } else {
                Err(PemError::Unparsable)
            }
        },
    }
}

/// How the key search steps through a PEM text: a failed read is
/// `Unparsable`, the end of the text is `NoKey`, an RSA or PKCS#8 key read
/// first is the answer, and skipping any other section (a certificate, an EC
/// key, a revocation list) leaves the answer to the rest of the text.
pub proof fn lemma_key_search_steps(pem: Seq<u8>)
    ensures
        pem_read_one(pem) is None ==> first_private_key(pem) == Err::<Seq<u8>, PemError>(
            PemError::Unparsable,
        ),
        pem_read_one(pem) == Some(None::<(SectionView, nat)>) ==> first_private_key(pem) == Err::<
            Seq<u8>,
            PemError,
        >(PemError::NoKey),
        pem_read_one(pem) matches Some(Some((SectionView::RsaKey(der), _))) ==> first_private_key(
            pem,
        ) == Ok::<Seq<u8>, PemError>(der),
        pem_read_one(pem) matches Some(Some((SectionView::Pkcs8Key(der), _))) ==> first_private_key(
            pem,
        ) == Ok::<Seq<u8>, PemError>(der),
        pem_read_one(pem) matches Some(Some((section, left))) ==> (!(section is RsaKey)
            && !(section is Pkcs8Key) && left < pem.len() ==> first_private_key(pem)
            == first_private_key(unread(pem, left))),
{
}

/// Searches `pem` section by section for the first RSA or PKCS#8 private key.
fn find_private_key(pem: &[u8]) -> (r: Result<Vec<u8>, PemError>)
    ensures
        match r {
            Ok(key) => first_private_key(pem@) == Ok::<Seq<u8>, PemError>(key@),
            Err(e) => first_private_key(pem@) == Err::<Seq<u8>, PemError>(e),
        },
{
    let mut rest: &[u8] = pem;
    loop
        invariant
            first_private_key(rest@) == first_private_key(pem@),
        decreases rest@.len(),
    {
        match read_one_section(rest) {
            Err(_) => return Err(PemError::Unparsable),
            Ok(None) => return Err(PemError::NoKey),
            Ok(Some((PemSection::RsaKey(der), _))) => return Ok(der),
            Ok(Some((PemSection::Pkcs8Key(der), _))) => return Ok(der),
            Ok(Some((_, left))) => {
                let n = rest.len();
                rest = &rest[n - left..n];
            },
        }
    }
}

/// The DER bytes of the first RSA (PKCS#1) or PKCS#8 private key in the PEM
/// text `pem`, which must hold such a key before anything unreadable.
pub fn load_private_key(pem: &[u8]) -> (key: Vec<u8>)
    requires
        first_private_key(pem@) is Ok,
    ensures
        first_private_key(pem@) == Ok::<Seq<u8>, PemError>(key@),
{
    match find_private_key(pem) {
        Ok(key) => key,
        Err(_) => Vec::new(),
    }
}

/// The key `load_private_key` gives for `pem`, or why there is none: `NoKey`
/// where the text ends before an RSA or PKCS#8 key, `Unparsable` where
/// reading fails first.
pub fn try_load_private_key(pem: &[u8]) -> (r: Result<Vec<u8>, PemError>)
    ensures
        match r {
            Ok(key) => first_private_key(pem@) == Ok::<Seq<u8>, PemError>(key@),
            Err(e) => first_private_key(pem@) == Err::<Seq<u8>, PemError>(e),
        },
{
    find_private_key(pem)
}

} // verus!
