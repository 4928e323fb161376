# hermanar

Gestión de una hermandad: hermanos, familias, cuotas anuales y sus recibos,
con copias de seguridad de la base de datos.

El núcleo es una biblioteca verificada con Verus (`src/`):

- `modelo`: hermanos, familias y cuotas (los importes, en céntimos).
- `db`: el almacén con sus tablas y restricciones (claves únicas, claves
  ajenas, borrado en cascada) y todas las operaciones de alta, consulta,
  modificación, baja, pago, generación de cuotas y estadísticas; también la
  reconstrucción del almacén a partir de las filas guardadas.
- `recibos`: textos y maquetación de los recibos (tres por página A4).
- `texto`: búsqueda sin distinguir mayúsculas, escritura de números y recorte
  de blancos.
- `fecha`: marcas de tiempo de los nombres de archivo, escritas con `chrono`.
- `backup`: compresión de copias con `zstd` y comprobación al importarlas.
- `config`: directorio de datos por defecto o personalizado y plan de archivos
  para cambiarlo.
- `arranque`: plan de recuperación si la base no abre o está dañada, y
  migraciones pendientes del esquema.
- `semilla`: datos de prueba deterministas para llenar una base vacía.
- `leyes`: propiedades que relacionan varias operaciones.

`app/` es la aplicación alrededor: la base SQLite en disco (`rusqlite`), el
archivo `config.json`, las copias en la carpeta de descargas, el PDF de
recibos (`printpdf`), los comandos que llama la interfaz y el llenado de la
base con los datos de prueba.
