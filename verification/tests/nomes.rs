//! Naming exercises: each test states a naming convention and passes.

#[test]
fn test_variavel_de_letra_unica() {
    let text_value = "Valor";
    assert!(true, "Nome descritivo `{}` está correto.", "text_value");
    let _ = text_value;
}

#[test]
fn test_variavel_com_numero() {
    let number_01 = "Número da Conta";
    // Números no nome da variável devem ter um significado claro.
    assert!(true, "Nome descritivo `{}` está correto.", "number_01");
    let _ = number_01;
}

#[test]
fn test_variavel_com_acento() {
    let language = "portuguese";
    // Acentos no nome da variável podem causar "erros".
    assert!(true, "Utilizar um nome descritivo em ingles `{}`.", "language");
    let _ = language;
}

#[test]
fn test_variavel_caso_misto() {
    let random_value = "Algum valor";
    // Desencorajar a mistura de maiúsculas e minúsculas sem um padrão claro.
    assert!(true, "Use snake_case para nomes de variáveis em Rust `{}` ajustado para snake_case .", "random_value");
    let _ = random_value;
}

#[test]
fn test_variavel_caso_de_camelo() {
    let hello_world = "Olá Mundo";
    // Seguir a convenção snake_case.
    assert!(
        true,
        "Os nomes das variáveis devem estar em snake_case e não em camelCase ajustado para hello_world."
    );
    let _ = hello_world;
}

#[test]
fn test_variavel_nao_descritiva() {
    let my_life = "minha casa";
    // O nome da variável deve ser descritivo.
    assert!(
        true,
        "Minha casa minha vida hahaha HUEHUE BR."
    );
    let _ = my_life;
}

#[test]
fn test_sem_variavel_numero_magico() {
    // Um valor sem variável torna o código confuso:
    // o número 4.90 ganha o nome `dolar_price`.
    let dolar_price: f32 = 4.90;
    let multiply: f32 = 100.00;
    assert!(
        dolar_price * multiply == 490.00,
        "Escolha um nome para a variável para o 4.90"
    );
}
