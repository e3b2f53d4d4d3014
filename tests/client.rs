use sf_client::{ExternalId, SfAccessToken, SfClient};

fn client() -> SfClient {
    let token = SfAccessToken {
        access_token: "access_token".to_string(),
        scope: "scope".to_string(),
        instance_url: "http://127.0.0.1:4000".to_string(),
        id: "id".to_string(),
        token_type: "token_type".to_string(),
    };
    SfClient::new("12345.0".to_string(), token)
}

#[test]
fn client_keeps_token_and_instance() {
    let c = client();
    assert_eq!("access_token", c.bearer());
    assert_eq!("http://127.0.0.1:4000", c.instance_url());
    assert_eq!("12345.0", c.version());
}

#[test]
fn resource_urls() {
    let c = client();
    assert_eq!("http://127.0.0.1:4000/services/data/v12345.0/sobjects/", c.objects_url());
    assert_eq!("http://127.0.0.1:4000/services/data/v12345.0/sobjects/Lead", c.object_url("Lead"));
    assert_eq!(
        "http://127.0.0.1:4000/services/data/v12345.0/sobjects/Lead/123",
        c.record_url("Lead", "123")
    );
    let ext = ExternalId::new("External_Service_Record_Id__c".to_string(), "external_12345".to_string());
    assert_eq!("External_Service_Record_Id__c", ext.field);
    assert_eq!("external_12345", ext.value);
    assert_eq!(
        "http://127.0.0.1:4000/services/data/v12345.0/sobjects/Lead/External_Service_Record_Id__c/external_12345",
        c.external_record_url("Lead", &ext)
    );
}

#[test]
fn query_is_url_encoded() {
    let c = client();
    assert_eq!(
        "http://127.0.0.1:4000/services/data/v12345.0/sobjects/query/?q=SELECT%20Id%20FROM%20Lead%20WHERE%20Name%3D%27a%26b%27",
        c.query_url("SELECT Id FROM Lead WHERE Name='a&b'")
    );
    assert_eq!("http://127.0.0.1:4000/services/data/v12345.0/sobjects/query/?q=Id-_.~", c.query_url("Id-_.~"));
}
