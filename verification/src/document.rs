//! Document-text selection: the simulated OCR text extraction and the
//! choice between an uploaded image and pre-extracted text.

use vstd::prelude::*;
use vstd::string::StringExecFns;
use vstd::string::StringSliceAdditionalSpecFns;
use crate::predict::AnalysisError;

verus! {

/// The simulated receipt text for a size-indicator class.
pub open spec fn sample_receipt_text(i: int) -> Seq<char> {
    if i == 0 {
        "REMA 1000 Oslo Melk 34.90 kr Brød 28.50 kr TOTALT 63.40 kr"@
    } else if i == 1 {
        "ICA Supermarket Bergen Egg 12stk 45.90 kr Lam 289.90 kr SUMMA 335.80 kr"@
    } else if i == 2 {
        "COOP Trondheim Kaffe 89.90 kr Ost 67.50 kr MEDLEM 12345 TOTALT 157.40 kr"@
    } else if i == 3 {
        "KIWI Stavanger Pölse 15.90 kr Brus 2L 29.90 kr TOTALT 45.80 kr"@
    } else {
        "VINMONOPOLET Oslo Vin rød 299.90 kr Øl 6pk 189.90 kr TOTALT 489.80 kr"@
    }
}

/// Simulated OCR: derives a receipt text from the size of the image
/// data alone.
pub fn extract_text_from_image(image_data: &str) -> (r: String)
    ensures
        r@ == sample_receipt_text((image_data.spec_bytes().len() as usize % 5) as int),
{
    let size_indicator = image_data.len() % 5;
    if size_indicator == 0 {
        String::from_str("REMA 1000 Oslo Melk 34.90 kr Brød 28.50 kr TOTALT 63.40 kr")
    } else if size_indicator == 1 {
        String::from_str("ICA Supermarket Bergen Egg 12stk 45.90 kr Lam 289.90 kr SUMMA 335.80 kr")
    } else if size_indicator == 2 {
        String::from_str("COOP Trondheim Kaffe 89.90 kr Ost 67.50 kr MEDLEM 12345 TOTALT 157.40 kr")
    } else if size_indicator == 3 {
        String::from_str("KIWI Stavanger Pölse 15.90 kr Brus 2L 29.90 kr TOTALT 45.80 kr")
    } else {
        String::from_str("VINMONOPOLET Oslo Vin rød 299.90 kr Øl 6pk 189.90 kr TOTALT 489.80 kr")
    }
}

/// Picks the text a document request is processed from: the simulated
/// OCR text when image data is present, else the pre-extracted text;
/// with neither, the request is an input-validation error.
pub fn choose_processing_text(image_data: &Option<String>, document_text: &Option<String>) -> (r:
    Result<String, AnalysisError>)
    ensures
        ({
            match image_data {
                Some(img) => r matches Ok(t) && t@ == sample_receipt_text(
                    (vstd::utf8::encode_utf8(img@).len() as usize % 5) as int,
                ),
                None => match document_text {
                    Some(d) => r matches Ok(t) && t@ == d@,
                    None => r == Err::<String, AnalysisError>(AnalysisError::InputValidation),
                },
            }
        }),
{
    match image_data {
        Some(img) => Ok(extract_text_from_image(img.as_str())),
        None => match document_text {
            Some(d) => Ok(d.clone()),
            None => Err(AnalysisError::InputValidation),
        },
    }
}

} // verus!
