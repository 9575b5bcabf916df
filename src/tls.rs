//! Trust roots read from PEM text.

use vstd::prelude::*;

verus! {

/// The PEM text of each block in `text`, in order, as `pem::encode` writes
/// it; `None` where a block is malformed.
pub uninterp spec fn pem_block_texts(text: Seq<char>) -> Option<Seq<Seq<char>>>;

/// Relies on `pem::parse_many`, and on `pem::encode` of each block it
/// returns: the blocks of the text in order, or the error of a malformed one.
/// The outcome depends on the text alone.
#[verifier::external_body]
fn parse_pems(text: &str) -> (r: Result<Vec<String>, pem::PemError>)
    ensures
        match r {
            Ok(v) => pem_block_texts(text@) == Some(v.deep_view()),
            Err(_) => pem_block_texts(text@) is None,
        },
{
    pem::parse_many(text).map(|blocks| blocks.iter().map(pem::encode).collect())
}

/// A trusted root, with the PEM text it was read from.
pub struct RootCertificate {
    cert: reqwest::Certificate,
    pem: Ghost<Seq<char>>,
}

impl RootCertificate {
    /// The PEM text this root was read from.
    pub closed spec fn pem_text(&self) -> Seq<char> {
        self.pem@
    }

    /// The certificate, for handing to the transport.
    pub(crate) fn into_inner(self) -> (r: reqwest::Certificate) {
        self.cert
    }
}

/// The PEM texts of a list of roots, in order.
pub open spec fn root_texts(v: Seq<RootCertificate>) -> Seq<Seq<char>> {
    v.map_values(|c: RootCertificate| c.pem_text())
}

/// Relies on `reqwest::Certificate::from_pem`: one trust root from PEM text.
/// With the rustls backend alone it keeps the bytes and never fails.
#[verifier::external_body]
fn certificate_from_pem(text: &String) -> (r: Result<RootCertificate, reqwest::Error>)
    ensures
        r is Ok,
        r->Ok_0.pem_text() == text@,
{
    let pem = Ghost(text@);
    reqwest::Certificate::from_pem(text.as_bytes()).map(|cert| RootCertificate { cert, pem })
}

/// Why trust material could not be read.
#[derive(Debug)]
pub enum TlsError {
    Io(std::io::Error),
    Reqwest(reqwest::Error),
    Pem(pem::PemError),
}

/// Reads trust roots.
pub struct RootCertificates;

impl RootCertificates {
    /// One trust root for each PEM block of `subject`, in order, each read
    /// from that block's text. Fails, with
    /// `Pem`, exactly where a block is malformed.
    pub fn from_string(subject: &str) -> (r: Result<Vec<RootCertificate>, TlsError>)
        ensures
            match r {
                Ok(v) => pem_block_texts(subject@) == Some(root_texts(v@)),
                Err(TlsError::Pem(_)) => pem_block_texts(subject@) is None,
                Err(TlsError::Reqwest(_)) => false,
                Err(TlsError::Io(_)) => false,
            },
    {
        let pems = match parse_pems(subject) {
            Ok(p) => p,
            Err(e) => return Err(TlsError::Pem(e)),
        };
        let mut certificates: Vec<RootCertificate> = Vec::new();
        let mut i: usize = 0;
        while i < pems.len()
            invariant
                i <= pems.len(),
                root_texts(certificates@) =~= pems.deep_view().take(i as int),
                pem_block_texts(subject@) == Some(pems.deep_view()),
            decreases pems.len() - i,
        {
            let ghost before = certificates@;
            match certificate_from_pem(&pems[i]) {
                Ok(c) => certificates.push(c),
                Err(e) => return Err(TlsError::Reqwest(e)),
            }
            assert(certificates@ =~= before.push(certificates@.last()));
            assert(root_texts(certificates@) =~= root_texts(before).push(pems.deep_view()[i as int]));
            assert(pems.deep_view().take(i + 1) =~= pems.deep_view().take(i as int).push(pems.deep_view()[i as int]));
            i = i + 1;
        }
        assert(pems.deep_view().take(i as int) =~= pems.deep_view());
        Ok(certificates)
    }
}

} // verus!
