use bbs_core::claims::Claims;
use bbs_core::token::{check_claims, judge_payload, DecodeError, TokenVerifier};
use jsonwebtoken::{Algorithm, EncodingKey, Header};
use serde_json::Value;

const SIGNING_KEY: [u8; 1189] = [
    48, 130, 4, 161, 2, 1, 0, 2, 130, 1, 1, 0, 189, 153, 109, 142, 88, 140, 122, 69,
    139, 43, 142, 122, 54, 41, 243, 183, 74, 167, 42, 29, 129, 129, 38, 34, 52, 236, 131, 238,
    193, 99, 155, 220, 249, 143, 151, 25, 139, 38, 213, 76, 137, 33, 243, 249, 131, 202, 139, 90,
    242, 17, 19, 165, 109, 179, 94, 36, 127, 231, 99, 188, 223, 203, 152, 50, 89, 58, 158, 138,
    137, 34, 33, 250, 65, 34, 117, 25, 183, 167, 167, 36, 57, 123, 66, 252, 144, 52, 26, 235,
    200, 80, 170, 108, 59, 5, 157, 253, 53, 237, 241, 20, 115, 29, 190, 235, 171, 69, 72, 161,
    80, 0, 255, 228, 34, 21, 80, 161, 206, 69, 157, 174, 133, 145, 71, 21, 255, 210, 207, 120,
    159, 26, 107, 215, 223, 155, 228, 47, 188, 129, 138, 223, 101, 12, 156, 247, 170, 56, 79, 255,
    124, 162, 83, 100, 11, 97, 164, 145, 140, 183, 121, 131, 88, 189, 39, 106, 10, 157, 89, 97,
    170, 179, 164, 17, 155, 204, 124, 3, 144, 126, 29, 50, 147, 253, 133, 98, 92, 240, 135, 122,
    11, 223, 86, 158, 139, 240, 251, 48, 184, 100, 228, 123, 42, 8, 128, 58, 72, 224, 230, 101,
    134, 144, 250, 152, 205, 46, 106, 218, 192, 31, 253, 215, 197, 13, 13, 74, 219, 38, 58, 43,
    92, 221, 85, 97, 239, 200, 177, 30, 36, 173, 184, 10, 199, 102, 144, 224, 132, 88, 79, 247,
    92, 81, 169, 191, 108, 107, 0, 75, 2, 3, 1, 0, 1, 2, 130, 1, 0, 77, 185, 65,
    210, 34, 182, 163, 193, 50, 134, 14, 136, 70, 255, 247, 170, 225, 237, 153, 52, 51, 76, 176,
    71, 65, 142, 219, 158, 218, 164, 108, 214, 175, 111, 143, 175, 166, 253, 170, 95, 15, 176, 93,
    133, 161, 227, 60, 49, 114, 30, 82, 1, 116, 241, 28, 220, 181, 154, 51, 166, 207, 207, 116,
    122, 223, 93, 74, 116, 220, 54, 163, 219, 37, 44, 108, 248, 183, 243, 0, 111, 183, 40, 178,
    147, 58, 194, 65, 110, 250, 213, 38, 167, 235, 162, 39, 220, 15, 105, 149, 116, 158, 164, 73,
    9, 239, 82, 29, 174, 19, 79, 245, 150, 157, 234, 66, 253, 177, 195, 148, 26, 97, 34, 231,
    19, 59, 166, 61, 234, 45, 182, 250, 253, 222, 60, 78, 48, 137, 176, 48, 90, 210, 121, 179,
    253, 59, 124, 117, 151, 25, 147, 212, 163, 31, 81, 7, 127, 185, 71, 225, 198, 34, 76, 165,
    243, 255, 60, 78, 188, 4, 59, 119, 143, 156, 195, 204, 104, 88, 232, 147, 212, 79, 121, 136,
    141, 175, 203, 181, 242, 181, 175, 57, 163, 207, 237, 161, 111, 47, 189, 230, 172, 120, 187, 149,
    61, 4, 162, 227, 137, 168, 201, 107, 61, 161, 244, 157, 195, 24, 43, 161, 81, 209, 125, 18,
    147, 237, 138, 75, 51, 214, 116, 138, 179, 250, 246, 27, 216, 112, 118, 227, 80, 53, 37, 35,
    118, 195, 251, 2, 61, 116, 132, 37, 10, 160, 215, 184, 129, 2, 129, 129, 0, 235, 122, 212,
    167, 151, 52, 186, 223, 132, 95, 33, 112, 74, 38, 193, 124, 220, 1, 33, 177, 26, 13, 190,
    161, 15, 71, 187, 70, 102, 141, 215, 60, 164, 86, 1, 158, 195, 235, 41, 6, 48, 110, 237,
    85, 151, 9, 61, 162, 120, 200, 34, 167, 193, 221, 39, 111, 227, 32, 248, 161, 88, 159, 6,
    146, 8, 58, 158, 108, 50, 11, 123, 108, 99, 51, 241, 207, 76, 1, 19, 190, 43, 145, 165,
    78, 229, 4, 172, 209, 39, 51, 80, 4, 170, 108, 121, 24, 185, 105, 13, 29, 197, 84, 56,
    25, 104, 154, 166, 17, 173, 155, 219, 79, 187, 65, 12, 68, 138, 3, 18, 52, 130, 234, 195,
    194, 5, 48, 227, 107, 2, 129, 129, 0, 206, 31, 20, 45, 208, 13, 140, 123, 20, 179, 19,
    199, 158, 148, 156, 80, 104, 81, 91, 14, 184, 196, 208, 78, 178, 49, 210, 28, 198, 78, 147,
    144, 73, 1, 150, 107, 1, 82, 221, 3, 254, 136, 94, 188, 72, 69, 37, 212, 238, 79, 30,
    58, 132, 217, 125, 224, 64, 228, 65, 198, 21, 160, 123, 198, 172, 55, 6, 163, 139, 70, 89,
    80, 9, 14, 3, 221, 36, 200, 29, 22, 87, 240, 27, 29, 116, 11, 6, 54, 15, 43, 112,
    187, 60, 123, 233, 90, 190, 7, 28, 184, 50, 198, 85, 210, 115, 96, 210, 230, 98, 155, 190,
    229, 41, 6, 100, 39, 187, 109, 25, 101, 25, 19, 183, 103, 229, 220, 110, 161, 2, 127, 124,
    45, 73, 247, 22, 197, 183, 198, 39, 8, 3, 154, 51, 128, 60, 136, 155, 123, 253, 72, 103,
    116, 216, 18, 22, 252, 188, 197, 99, 79, 105, 49, 145, 119, 201, 98, 239, 238, 18, 180, 48,
    214, 78, 81, 212, 84, 11, 44, 162, 132, 231, 193, 143, 122, 16, 81, 240, 116, 114, 168, 163,
    19, 57, 99, 200, 243, 32, 151, 237, 204, 32, 74, 8, 6, 92, 125, 244, 150, 156, 210, 172,
    39, 34, 5, 120, 191, 254, 98, 77, 73, 193, 232, 179, 246, 127, 229, 137, 224, 220, 9, 215,
    5, 146, 143, 211, 153, 185, 249, 152, 147, 152, 19, 115, 171, 217, 204, 74, 251, 83, 158, 93,
    107, 111, 207, 224, 236, 231, 2, 129, 129, 0, 149, 0, 194, 133, 155, 177, 47, 172, 137, 250,
    42, 130, 83, 144, 250, 174, 229, 186, 106, 40, 234, 72, 220, 141, 7, 36, 28, 207, 208, 75,
    93, 65, 32, 133, 149, 71, 37, 93, 209, 135, 225, 168, 147, 83, 104, 171, 19, 254, 41, 135,
    232, 66, 69, 103, 52, 39, 184, 193, 73, 10, 248, 247, 90, 130, 244, 91, 146, 225, 6, 253,
    131, 242, 231, 152, 202, 18, 67, 84, 166, 50, 80, 191, 177, 218, 72, 216, 239, 84, 133, 2,
    210, 43, 136, 61, 203, 35, 93, 219, 166, 87, 65, 221, 62, 141, 51, 250, 250, 122, 177, 46,
    5, 129, 131, 118, 171, 80, 77, 157, 64, 142, 100, 226, 107, 227, 31, 183, 138, 1, 2, 129,
    128, 18, 215, 142, 210, 32, 17, 171, 30, 93, 100, 88, 148, 112, 56, 117, 51, 64, 4, 253,
    230, 35, 234, 37, 14, 183, 22, 219, 205, 98, 194, 49, 71, 163, 173, 26, 91, 89, 89, 119,
    116, 240, 97, 91, 52, 120, 245, 232, 125, 251, 52, 165, 38, 246, 8, 118, 4, 162, 186, 248,
    54, 219, 247, 229, 100, 195, 97, 119, 123, 28, 149, 76, 209, 17, 14, 232, 204, 255, 39, 125,
    13, 207, 152, 230, 116, 211, 11, 67, 97, 170, 84, 120, 67, 149, 147, 89, 31, 198, 37, 7,
    45, 120, 105, 134, 108, 197, 235, 71, 103, 57, 221, 220, 15, 54, 67, 243, 242, 196, 239, 192,
    129, 1, 90, 170, 232, 156, 144, 43, 230,
];

const PUBLIC_KEY: &str = "\
-----BEGIN PUBLIC KEY-----\n\
MIIBIjANBgkqhkiG9w0BAQEFAAOCAQ8AMIIBCgKCAQEAvZltjliMekWLK456Ninz\n\
t0qnKh2BgSYiNOyD7sFjm9z5j5cZiybVTIkh8/mDyota8hETpW2zXiR/52O838uY\n\
Mlk6noqJIiH6QSJ1GbenpyQ5e0L8kDQa68hQqmw7BZ39Ne3xFHMdvuurRUihUAD/\n\
5CIVUKHORZ2uhZFHFf/Sz3ifGmvX35vkL7yBit9lDJz3qjhP/3yiU2QLYaSRjLd5\n\
g1i9J2oKnVlhqrOkEZvMfAOQfh0yk/2FYlzwh3oL31aei/D7MLhk5HsqCIA6SODm\n\
ZYaQ+pjNLmrawB/918UNDUrbJjorXN1VYe/IsR4krbgKx2aQ4IRYT/dcUam/bGsA\n\
SwIDAQAB\n\
-----END PUBLIC KEY-----\n";

const OTHER_SIGNING_KEY: [u8; 1192] = [
    48, 130, 4, 164, 2, 1, 0, 2, 130, 1, 1, 0, 217, 94, 0, 241, 136, 116, 27, 199,
    237, 60, 62, 128, 41, 161, 203, 3, 111, 38, 137, 138, 173, 36, 98, 33, 188, 235, 242, 178,
    85, 85, 184, 123, 201, 26, 196, 54, 101, 79, 224, 246, 143, 5, 245, 226, 149, 99, 143, 169,
    193, 215, 210, 220, 153, 162, 175, 57, 162, 52, 179, 217, 196, 3, 87, 8, 249, 230, 123, 78,
    189, 38, 45, 76, 182, 5, 137, 142, 25, 75, 191, 142, 250, 93, 106, 25, 239, 154, 164, 127,
    131, 249, 107, 102, 169, 175, 56, 222, 142, 230, 154, 83, 150, 136, 107, 199, 200, 73, 65, 181,
    89, 102, 47, 210, 199, 181, 129, 87, 84, 120, 117, 146, 157, 154, 202, 220, 118, 171, 65, 187,
    174, 203, 241, 116, 226, 105, 247, 13, 145, 160, 1, 153, 116, 18, 210, 29, 25, 158, 66, 5,
    146, 4, 202, 93, 58, 24, 24, 114, 202, 208, 163, 95, 100, 186, 10, 18, 140, 79, 85, 22,
    41, 88, 140, 209, 65, 53, 3, 70, 221, 251, 157, 12, 21, 187, 8, 196, 115, 157, 179, 55,
    232, 243, 252, 121, 180, 94, 135, 163, 228, 148, 88, 58, 112, 134, 49, 112, 106, 110, 102, 151,
    248, 18, 100, 40, 195, 101, 59, 3, 191, 107, 245, 26, 4, 39, 215, 156, 242, 252, 230, 21,
    216, 185, 149, 95, 183, 32, 216, 181, 53, 71, 10, 186, 145, 136, 0, 170, 48, 215, 133, 246,
    100, 139, 50, 95, 41, 71, 201, 49, 2, 3, 1, 0, 1, 2, 130, 1, 0, 60, 122, 238,
    114, 70, 16, 96, 102, 121, 120, 232, 191, 10, 86, 109, 65, 80, 92, 253, 170, 43, 80, 211,
    73, 37, 226, 212, 205, 143, 246, 224, 244, 248, 88, 205, 61, 129, 100, 255, 104, 59, 21, 98,
    124, 32, 42, 234, 159, 70, 67, 65, 245, 133, 126, 1, 153, 92, 171, 163, 91, 53, 49, 228,
    182, 167, 169, 220, 167, 100, 243, 201, 104, 237, 192, 142, 172, 142, 23, 72, 126, 132, 229, 23,
    15, 142, 94, 141, 228, 185, 24, 222, 44, 91, 140, 88, 155, 124, 81, 103, 161, 88, 98, 46,
    243, 16, 164, 105, 119, 7, 31, 234, 176, 144, 70, 205, 109, 58, 32, 166, 62, 28, 66, 36,
    173, 193, 11, 23, 167, 152, 137, 165, 64, 189, 81, 13, 66, 83, 54, 118, 81, 165, 105, 155,
    27, 135, 25, 147, 105, 182, 96, 69, 119, 22, 95, 122, 94, 21, 229, 181, 91, 199, 59, 163,
    247, 14, 28, 167, 88, 61, 106, 146, 63, 60, 176, 114, 24, 94, 153, 84, 221, 145, 254, 233,
    168, 178, 145, 64, 209, 181, 242, 200, 141, 3, 91, 95, 163, 243, 62, 204, 212, 2, 94, 43,
    230, 82, 6, 167, 247, 233, 249, 252, 18, 19, 147, 25, 142, 100, 5, 200, 85, 148, 110, 151,
    227, 172, 10, 62, 221, 22, 228, 44, 87, 17, 104, 183, 58, 50, 215, 185, 222, 177, 120, 6,
    17, 181, 124, 124, 108, 28, 160, 249, 181, 35, 122, 15, 13, 2, 129, 129, 0, 251, 126, 58,
    216, 9, 2, 35, 180, 143, 13, 132, 125, 125, 237, 157, 195, 240, 127, 236, 23, 108, 114, 127,
    139, 188, 16, 106, 237, 89, 197, 230, 126, 75, 231, 41, 253, 244, 30, 83, 178, 139, 66, 141,
    134, 120, 246, 57, 173, 83, 174, 96, 23, 87, 131, 163, 220, 55, 156, 73, 40, 217, 22, 204,
    188, 82, 144, 119, 211, 51, 214, 181, 186, 33, 190, 170, 232, 112, 193, 130, 87, 143, 166, 181,
    112, 167, 165, 84, 155, 102, 241, 134, 85, 55, 45, 129, 6, 54, 211, 26, 196, 234, 183, 36,
    154, 56, 100, 63, 159, 50, 31, 37, 175, 140, 47, 10, 137, 200, 230, 239, 235, 174, 178, 15,
    24, 10, 91, 4, 47, 2, 129, 129, 0, 221, 67, 55, 19, 221, 4, 57, 172, 21, 250, 29,
    222, 24, 126, 188, 206, 11, 191, 98, 21, 124, 160, 139, 68, 27, 195, 119, 93, 123, 168, 132,
    143, 241, 144, 163, 7, 133, 238, 76, 206, 203, 75, 64, 107, 227, 12, 207, 217, 133, 28, 139,
    104, 47, 233, 51, 191, 143, 119, 186, 160, 248, 206, 29, 158, 77, 23, 145, 214, 218, 231, 55,
    145, 189, 200, 96, 205, 55, 100, 14, 196, 124, 170, 140, 86, 67, 17, 248, 69, 180, 20, 114,
    231, 184, 3, 236, 29, 33, 120, 41, 48, 150, 99, 139, 105, 250, 144, 43, 124, 54, 253, 24,
    17, 150, 27, 97, 13, 6, 68, 167, 12, 115, 81, 2, 245, 101, 198, 208, 159, 2, 129, 128,
    111, 124, 25, 161, 194, 252, 139, 207, 114, 202, 207, 60, 194, 34, 31, 153, 200, 119, 44, 181,
    133, 129, 140, 64, 233, 113, 109, 181, 33, 226, 180, 182, 175, 247, 29, 138, 82, 57, 79, 105,
    10, 138, 202, 42, 30, 93, 40, 92, 73, 136, 55, 88, 161, 150, 221, 128, 181, 182, 54, 72,
    65, 83, 246, 22, 85, 147, 109, 74, 214, 228, 11, 83, 35, 186, 94, 17, 4, 75, 3, 248,
    196, 217, 101, 253, 54, 147, 247, 217, 155, 220, 221, 107, 209, 53, 254, 200, 62, 109, 126, 164,
    100, 88, 35, 133, 170, 17, 230, 146, 47, 169, 215, 14, 230, 217, 195, 150, 40, 213, 22, 238,
    39, 87, 15, 145, 220, 165, 84, 73, 2, 129, 129, 0, 197, 172, 101, 42, 115, 204, 112, 145,
    211, 88, 143, 18, 122, 163, 207, 157, 237, 84, 224, 21, 254, 47, 151, 252, 19, 41, 192, 28,
    94, 123, 161, 98, 208, 23, 189, 238, 220, 178, 151, 32, 48, 243, 91, 236, 134, 254, 77, 59,
    49, 246, 220, 125, 10, 64, 183, 160, 174, 85, 243, 0, 25, 8, 91, 225, 175, 82, 29, 82,
    236, 98, 161, 124, 173, 38, 181, 132, 225, 181, 156, 147, 226, 36, 164, 23, 244, 247, 186, 236,
    219, 3, 97, 220, 174, 195, 162, 80, 44, 52, 163, 231, 234, 147, 168, 91, 216, 36, 177, 20,
    218, 51, 167, 43, 31, 5, 250, 224, 157, 246, 251, 158, 221, 239, 68, 75, 100, 208, 8, 85,
    2, 129, 129, 0, 139, 167, 76, 152, 201, 204, 198, 178, 27, 58, 247, 174, 173, 112, 68, 255,
    35, 36, 197, 138, 196, 158, 227, 81, 29, 19, 176, 6, 136, 216, 63, 131, 170, 7, 102, 161,
    53, 51, 184, 65, 224, 75, 136, 11, 132, 133, 4, 99, 1, 51, 166, 90, 144, 119, 97, 77,
    151, 219, 63, 81, 143, 40, 44, 48, 88, 13, 123, 89, 140, 187, 239, 11, 228, 161, 84, 205,
    248, 78, 252, 79, 145, 208, 174, 26, 28, 82, 46, 188, 174, 129, 83, 238, 6, 135, 189, 234,
    12, 69, 60, 114, 229, 98, 9, 70, 102, 73, 58, 84, 85, 123, 196, 83, 246, 129, 109, 204,
    101, 177, 190, 192, 153, 91, 64, 177, 150, 236, 181, 139,
];

const AUDIENCE: &str = "board-client";
const NOW: i64 = 1_700_000_000;

fn board_verifier() -> TokenVerifier {
    TokenVerifier::new(PUBLIC_KEY.as_bytes().to_vec(), AUDIENCE.to_owned()).expect("a key")
}

fn payload(audience: &str, expires_at: Value, subject: &str) -> serde_json::Map<String, Value> {
    let mut claims = serde_json::Map::new();
    claims.insert("aud".to_owned(), Value::from(audience));
    claims.insert("iat".to_owned(), Value::from(1_699_990_000.25));
    claims.insert("nbf".to_owned(), Value::from(1_699_990_000.5));
    claims.insert("exp".to_owned(), expires_at);
    claims.insert("sub".to_owned(), Value::from(subject));
    claims.insert(
        "scopes".to_owned(),
        Value::Array(vec![Value::from("basic"), Value::from("editpage")]),
    );
    claims
}

fn sign(key: &[u8], claims: &serde_json::Map<String, Value>) -> String {
    let key = EncodingKey::from_rsa_der(key);
    jsonwebtoken::encode(&Header::new(Algorithm::RS256), claims, &key).expect("a token")
}

fn expected_claims(expires_at: i64) -> Claims {
    Claims {
        audience: AUDIENCE.to_owned(),
        issued_at: 1_699_990_000,
        not_before: 1_699_990_000,
        expires_at,
        subject: "42".to_owned(),
        scopes: vec!["basic".to_owned(), "editpage".to_owned()],
    }
}

#[test]
fn valid_token_yields_its_claims() {
    let token = sign(&SIGNING_KEY, &payload(AUDIENCE, Value::from(1_700_000_600.75), "42"));
    let claims = board_verifier().verify_at(&token, NOW).expect("valid");
    assert_eq!(claims, expected_claims(1_700_000_600));
}

#[test]
fn token_signed_with_another_key_is_invalid() {
    let token = sign(&OTHER_SIGNING_KEY, &payload(AUDIENCE, Value::from(1_700_000_600), "42"));
    assert_eq!(board_verifier().verify_at(&token, NOW), Err(DecodeError::TokenInvalid));
    // Expired as well: the signature decides first.
    assert_eq!(board_verifier().verify_at(&token, NOW + 10_000), Err(DecodeError::TokenInvalid));
}

#[test]
fn token_for_another_audience_is_invalid() {
    let token = sign(&SIGNING_KEY, &payload("another-client", Value::from(1_700_000_600), "42"));
    assert_eq!(board_verifier().verify_at(&token, NOW), Err(DecodeError::TokenInvalid));
}

#[test]
fn audience_is_compared_letter_for_letter() {
    let token = sign(&SIGNING_KEY, &payload("Board-Client", Value::from(1_700_000_600), "42"));
    assert_eq!(board_verifier().verify_at(&token, NOW), Err(DecodeError::TokenInvalid));
    let token = sign(&SIGNING_KEY, &payload("board-client ", Value::from(1_700_000_600), "42"));
    assert_eq!(board_verifier().verify_at(&token, NOW), Err(DecodeError::TokenInvalid));
}

#[test]
fn audience_must_be_a_single_string() {
    let mut claims = payload(AUDIENCE, Value::from(1_700_000_600), "42");
    claims.insert("aud".to_owned(), Value::Array(vec![Value::from(AUDIENCE)]));
    let token = sign(&SIGNING_KEY, &claims);
    assert_eq!(board_verifier().verify_at(&token, NOW), Err(DecodeError::TokenInvalid));
}

#[test]
fn expired_token_is_expired() {
    let token = sign(&SIGNING_KEY, &payload(AUDIENCE, Value::from(1_699_999_999), "42"));
    assert_eq!(board_verifier().verify_at(&token, NOW), Err(DecodeError::TokenExpired));
    let token = sign(&SIGNING_KEY, &payload(AUDIENCE, Value::from(0), "42"));
    assert_eq!(board_verifier().verify_at(&token, NOW), Err(DecodeError::TokenExpired));
}

#[test]
fn token_expiring_this_second_is_not_expired() {
    let token = sign(&SIGNING_KEY, &payload(AUDIENCE, Value::from(NOW), "42"));
    assert_eq!(board_verifier().verify_at(&token, NOW), Ok(expected_claims(NOW)));
    assert_eq!(board_verifier().verify_at(&token, NOW - 1), Ok(expected_claims(NOW)));
    assert_eq!(board_verifier().verify_at(&token, NOW + 1), Err(DecodeError::TokenExpired));
}

#[test]
fn fraction_of_expiry_is_dropped_not_rounded() {
    // 1700000000.9 counts as 1700000000: good at that second, expired the next.
    let token = sign(&SIGNING_KEY, &payload(AUDIENCE, Value::from(1_700_000_000.9), "42"));
    assert_eq!(board_verifier().verify_at(&token, NOW), Ok(expected_claims(NOW)));
    assert_eq!(board_verifier().verify_at(&token, NOW + 1), Err(DecodeError::TokenExpired));
    // 1699999999.5 counts as 1699999999: expired at 1700000000.
    let token = sign(&SIGNING_KEY, &payload(AUDIENCE, Value::from(1_699_999_999.5), "42"));
    assert_eq!(board_verifier().verify_at(&token, NOW), Err(DecodeError::TokenExpired));
    assert_eq!(board_verifier().verify_at(&token, NOW - 1), Ok(expected_claims(NOW - 1)));
}

#[test]
fn verifying_twice_yields_the_same_claims() {
    let token = sign(&SIGNING_KEY, &payload(AUDIENCE, Value::from(1_700_000_600), "42"));
    let guard = board_verifier();
    let first = guard.verify_at(&token, NOW);
    let second = guard.verify_at(&token, NOW);
    let third = guard.verify_at(&token, NOW + 600);
    assert_eq!(first, Ok(expected_claims(1_700_000_600)));
    assert_eq!(first, second);
    assert_eq!(first, third);
}

#[test]
fn verify_reads_the_clock() {
    // Good until the year 2100.
    let token = sign(&SIGNING_KEY, &payload(AUDIENCE, Value::from(4_102_444_800_i64), "42"));
    assert_eq!(board_verifier().verify(&token), Ok(expected_claims(4_102_444_800)));
    assert_eq!(board_verifier().verify(&token), Ok(expected_claims(4_102_444_800)));
    // Expired in 2001.
    let token = sign(&SIGNING_KEY, &payload(AUDIENCE, Value::from(1_000_000_000), "42"));
    assert_eq!(board_verifier().verify(&token), Err(DecodeError::TokenExpired));
    let token = sign(&OTHER_SIGNING_KEY, &payload(AUDIENCE, Value::from(4_102_444_800_i64), "42"));
    assert_eq!(board_verifier().verify(&token), Err(DecodeError::TokenInvalid));
}

#[test]
fn malformed_tokens_are_invalid() {
    let guard = board_verifier();
    assert_eq!(guard.verify_at("", NOW), Err(DecodeError::TokenInvalid));
    assert_eq!(guard.verify_at("abc123", NOW), Err(DecodeError::TokenInvalid));
    assert_eq!(guard.verify_at("a.b", NOW), Err(DecodeError::TokenInvalid));
    assert_eq!(guard.verify_at("a.b.c", NOW), Err(DecodeError::TokenInvalid));
    assert_eq!(guard.verify_at("..", NOW), Err(DecodeError::TokenInvalid));
    let token = sign(&SIGNING_KEY, &payload(AUDIENCE, Value::from(1_700_000_600), "42"));
    assert_eq!(guard.verify_at(&format!("{}.", token), NOW), Err(DecodeError::TokenInvalid));
    assert_eq!(guard.verify_at(&format!("x.{}", token), NOW), Err(DecodeError::TokenInvalid));
    assert_eq!(guard.verify_at(&token[..token.len() - 2], NOW), Err(DecodeError::TokenInvalid));
}

#[test]
fn tampered_payload_is_invalid() {
    let token = sign(&SIGNING_KEY, &payload(AUDIENCE, Value::from(1_699_999_999), "42"));
    let later = payload(AUDIENCE, Value::from(1_800_000_000), "42");
    let forged = base64::encode_config(
        serde_json::to_string(&later).expect("text"),
        base64::URL_SAFE_NO_PAD,
    );
    let parts: Vec<&str> = token.split('.').collect();
    assert_eq!(parts.len(), 3);
    let forged_token = format!("{}.{}.{}", parts[0], forged, parts[2]);
    assert_eq!(board_verifier().verify_at(&forged_token, NOW), Err(DecodeError::TokenInvalid));
}

#[test]
fn token_under_another_algorithm_is_invalid() {
    // Signed with HMAC, with the public key's text as the secret.
    let claims = payload(AUDIENCE, Value::from(1_700_000_600), "42");
    let key = EncodingKey::from_secret(PUBLIC_KEY.as_bytes());
    let token = jsonwebtoken::encode(&Header::new(Algorithm::HS256), &claims, &key).expect("a token");
    assert_eq!(board_verifier().verify_at(&token, NOW), Err(DecodeError::TokenInvalid));
    let key = EncodingKey::from_rsa_der(&SIGNING_KEY);
    let token = jsonwebtoken::encode(&Header::new(Algorithm::RS512), &claims, &key).expect("a token");
    assert_eq!(board_verifier().verify_at(&token, NOW), Err(DecodeError::TokenInvalid));
}

#[test]
fn missing_claim_is_invalid() {
    for name in ["aud", "iat", "nbf", "exp", "sub", "scopes"] {
        let mut claims = payload(AUDIENCE, Value::from(1_700_000_600), "42");
        claims.remove(name);
        let token = sign(&SIGNING_KEY, &claims);
        assert_eq!(
            board_verifier().verify_at(&token, NOW),
            Err(DecodeError::TokenInvalid),
            "without {}",
            name
        );
    }
}

#[test]
fn claim_of_wrong_kind_is_invalid() {
    let cases = [
        ("exp", Value::from("1700000600")),
        ("exp", Value::Null),
        ("iat", Value::from(true)),
        ("nbf", Value::Array(vec![])),
        ("sub", Value::from(42)),
        ("scopes", Value::from("basic")),
        ("scopes", Value::Array(vec![Value::from("basic"), Value::from(1)])),
        ("exp", Value::from(1e30)),
    ];
    for (name, value) in cases {
        let mut claims = payload(AUDIENCE, Value::from(1_700_000_600), "42");
        claims.insert(name.to_owned(), value.clone());
        let token = sign(&SIGNING_KEY, &claims);
        assert_eq!(
            board_verifier().verify_at(&token, NOW),
            Err(DecodeError::TokenInvalid),
            "{} = {}",
            name,
            value
        );
    }
}

#[test]
fn claims_beyond_the_six_are_passed_over() {
    let mut claims = payload(AUDIENCE, Value::from(1_700_000_600), "42");
    claims.insert("iss".to_owned(), Value::from("https://wiki.example"));
    claims.insert("jti".to_owned(), Value::from("f3a1"));
    let token = sign(&SIGNING_KEY, &claims);
    assert_eq!(board_verifier().verify_at(&token, NOW), Ok(expected_claims(1_700_000_600)));
}

#[test]
fn scopes_keep_their_order_and_subject_stays_text() {
    let mut claims = payload(AUDIENCE, Value::from(1_700_000_600), "not-a-number");
    claims.insert(
        "scopes".to_owned(),
        Value::Array(vec![Value::from("z"), Value::from("a"), Value::from("z")]),
    );
    let token = sign(&SIGNING_KEY, &claims);
    let decoded = board_verifier().verify_at(&token, NOW).expect("valid");
    assert_eq!(decoded.subject, "not-a-number");
    assert_eq!(decoded.scopes, vec!["z".to_owned(), "a".to_owned(), "z".to_owned()]);
    let mut claims = payload(AUDIENCE, Value::from(1_700_000_600), "42");
    claims.insert("scopes".to_owned(), Value::Array(vec![]));
    let token = sign(&SIGNING_KEY, &claims);
    let decoded = board_verifier().verify_at(&token, NOW).expect("valid");
    assert_eq!(decoded.scopes, Vec::<String>::new());
}

#[test]
fn verifier_needs_an_rsa_key() {
    assert!(TokenVerifier::new(PUBLIC_KEY.as_bytes().to_vec(), AUDIENCE.to_owned()).is_some());
    assert!(TokenVerifier::new(Vec::new(), AUDIENCE.to_owned()).is_none());
    assert!(TokenVerifier::new(b"not a key".to_vec(), AUDIENCE.to_owned()).is_none());
    let broken = PUBLIC_KEY.replace("PUBLIC KEY", "CERTIFICATE");
    assert!(TokenVerifier::new(broken.into_bytes(), AUDIENCE.to_owned()).is_none());
    let guard = board_verifier();
    assert_eq!(guard.expected_audience(), AUDIENCE);
}

#[test]
fn judge_payload_decides_on_given_text() {
    let text = r#"{"aud":"board-client","iat":1.6999e9,"nbf":1699990000,"exp":1700000000.25,
        "sub":"7","scopes":["basic"],"extra":{"a":[1,2]}}"#;
    let claims = Claims {
        audience: "board-client".to_owned(),
        issued_at: 1_699_900_000,
        not_before: 1_699_990_000,
        expires_at: 1_700_000_000,
        subject: "7".to_owned(),
        scopes: vec!["basic".to_owned()],
    };
    assert_eq!(judge_payload(Some(text), "board-client", NOW), Ok(claims.clone()));
    assert_eq!(judge_payload(Some(text), "board-client", NOW + 1), Err(DecodeError::TokenExpired));
    assert_eq!(judge_payload(Some(text), "other", NOW), Err(DecodeError::TokenInvalid));
    assert_eq!(judge_payload(Some(text), "other", NOW + 1), Err(DecodeError::TokenInvalid));
    assert_eq!(judge_payload(None, "board-client", NOW), Err(DecodeError::TokenInvalid));
    assert_eq!(judge_payload(Some("[1,2]"), "board-client", NOW), Err(DecodeError::TokenInvalid));
    assert_eq!(judge_payload(Some("{"), "board-client", NOW), Err(DecodeError::TokenInvalid));
    assert_eq!(judge_payload(Some(""), "board-client", NOW), Err(DecodeError::TokenInvalid));
}

#[test]
fn check_claims_holds_audience_before_expiry() {
    let claims = expected_claims(NOW);
    assert_eq!(check_claims(claims.clone(), AUDIENCE, NOW), Ok(claims.clone()));
    assert_eq!(check_claims(claims.clone(), AUDIENCE, i64::MIN), Ok(claims.clone()));
    assert_eq!(check_claims(claims.clone(), AUDIENCE, NOW + 1), Err(DecodeError::TokenExpired));
    assert_eq!(check_claims(claims.clone(), AUDIENCE, i64::MAX), Err(DecodeError::TokenExpired));
    assert_eq!(check_claims(claims.clone(), "", NOW), Err(DecodeError::TokenInvalid));
    assert_eq!(check_claims(claims, "board", NOW + 1), Err(DecodeError::TokenInvalid));
}

#[test]
fn decode_errors_have_their_words() {
    assert_eq!(DecodeError::TokenExpired.reason(), "TokenExpired");
    assert_eq!(DecodeError::TokenInvalid.reason(), "TokenInvalid");
}
