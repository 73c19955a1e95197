use vkbd::endpoint::COUNTRY_CODE;
use vkbd::endpoint::DEVICE_VERSION;
use vkbd::endpoint::EndpointError;
use vkbd::endpoint::PRODUCT_ID;
use vkbd::endpoint::VENDOR_ID;
use vkbd::endpoint::device_name;

#[test]
fn device_identity_is_fixed() {
    assert_eq!(VENDOR_ID, 0xdead);
    assert_eq!(PRODUCT_ID, 0xbeef);
    assert_eq!(DEVICE_VERSION, 0);
    assert_eq!(COUNTRY_CODE, 0);
    assert_eq!(device_name(), "cherryrgb");
}

#[test]
fn failure_classes_are_distinguishable() {
    assert_ne!(EndpointError::Registration, EndpointError::Transmission);
    assert_ne!(
        EndpointError::Registration.describe(),
        EndpointError::Transmission.describe()
    );
}

#[test]
fn failures_describe_themselves() {
    assert_eq!(
        EndpointError::Registration.describe(),
        "could not register the virtual device"
    );
    assert_eq!(
        EndpointError::Transmission.describe(),
        "could not forward the report to the device"
    );
}
