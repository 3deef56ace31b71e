//! Why an operation of the client fails.
use vstd::prelude::*;

verus! {

/// Why a bonding curve gives no quote.
#[derive(Clone, Copy, Debug, PartialEq, Eq)]
pub enum CurveError {
    /// All tokens of the curve are sold: trading has moved elsewhere.
    Complete,
}

/// Why an operation of the client fails. `E` is what the transport reports: of the upload, of an
/// account that was not read, of a transaction that was not accepted.
#[derive(Debug)]
pub enum ClientError<E> {
    /// The bonding curve account has no address.
    BondingCurveNotFound,
    /// The bonding curve gives no quote.
    BondingCurveError(CurveError),
    /// The bytes of an account do not decode, with what the decoder says of them.
    BorshError(String),
    /// The balance of a token account is no amount, with the text that was reported for it.
    InvalidBalance(String),
    /// An account could not be read.
    SolanaClientError(E),
    /// The metadata could not be uploaded.
    UploadMetadataError(E),
    /// The transaction was not accepted.
    AnchorClientError(E),
}

/// A [`ClientError`] with its texts as sequences of characters.
pub enum ClientErrorView<E> {
    BondingCurveNotFound,
    BondingCurveError(CurveError),
    BorshError(Seq<char>),
    InvalidBalance(Seq<char>),
    SolanaClientError(E),
    UploadMetadataError(E),
    AnchorClientError(E),
}

impl<E> View for ClientError<E> {
    type V = ClientErrorView<E>;

    open spec fn view(&self) -> ClientErrorView<E> {
        match *self {
            ClientError::BondingCurveNotFound => ClientErrorView::BondingCurveNotFound,
            ClientError::BondingCurveError(error) => ClientErrorView::BondingCurveError(error),
            ClientError::BorshError(message) => ClientErrorView::BorshError(message@),
            ClientError::InvalidBalance(text) => ClientErrorView::InvalidBalance(text@),
            ClientError::SolanaClientError(error) => ClientErrorView::SolanaClientError(error),
            ClientError::UploadMetadataError(error) => ClientErrorView::UploadMetadataError(error),
            ClientError::AnchorClientError(error) => ClientErrorView::AnchorClientError(error),
        }
    }
}

} // verus!
